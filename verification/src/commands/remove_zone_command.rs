//! Removing a zone: a single call.

use crate::app_config::cmd_line_parser::{CommandParameters, CommandParametersView};
use crate::commands::workflow::{
    after_change,
    finish_change,
    finish_unspecified,
    go_on,
    issue,
    unspecified_failure,
    Call,
    CallView,
    CommandTargetView,
    Event,
    Stage,
    StepView,
    WorkflowStep,
};
use crate::rest_client::zone_resource_client::RemoveZoneRequestEvent;
use vstd::prelude::*;
use vstd::string::*;

verus! {

/// The first step of the workflow: ask the server to remove the zone.
/// Parameters of another command end the workflow at once.
pub open spec fn remove_zone_begin(zone_name: Seq<char>, parameters: CommandParametersView)
    -> StepView {
    if parameters is RemoveZone {
        issue(CallView::RemoveZone { zone_name }, Stage::ZoneRemoval)
    } else {
        unspecified_failure()
    }
}

/// The step that follows on `event` at `stage`: the outcome of the call is
/// the outcome of the workflow.
pub open spec fn remove_zone_resume(parameters: CommandParametersView, stage: Stage, event: Event)
    -> StepView {
    if parameters is RemoveZone && stage == Stage::ZoneRemoval {
        after_change(event)
    } else {
        unspecified_failure()
    }
}

/// The command that removes a zone.
pub struct RemoveZoneCommand {
    base_uri: String,
    api_key: String,
    zone_name: String,
}

impl View for RemoveZoneCommand {
    type V = CommandTargetView;

    closed spec fn view(&self) -> CommandTargetView {
        CommandTargetView {
            base_uri: self.base_uri@,
            api_key: self.api_key@,
            zone_name: self.zone_name@,
        }
    }
}

impl RemoveZoneCommand {
    pub fn new(base_uri: &String, api_key: &String, zone_name: &String) -> (command:
        RemoveZoneCommand)
        ensures
            command@ == (CommandTargetView {
                base_uri: base_uri@,
                api_key: api_key@,
                zone_name: zone_name@,
            }),
    {
        RemoveZoneCommand {
            base_uri: base_uri.clone(),
            api_key: api_key.clone(),
            zone_name: zone_name.clone(),
        }
    }

    /// Begins the workflow.
    pub fn execute_command(&self, parameters: &CommandParameters) -> (step: WorkflowStep)
        ensures
            step@ == remove_zone_begin(self@.zone_name, parameters@),
    {
        match parameters {
            CommandParameters::RemoveZone {  } => go_on(
                Call::RemoveZone(RemoveZoneRequestEvent::new(&self.zone_name)),
                Stage::ZoneRemoval,
            ),
            _ => finish_unspecified(),
        }
    }

    /// Goes on with the workflow after `event` came in at `stage`.
    pub fn resume(&self, parameters: &CommandParameters, stage: Stage, event: Event) -> (step:
        WorkflowStep)
        ensures
            step@ == remove_zone_resume(parameters@, stage, event),
    {
        match (parameters, stage) {
            (CommandParameters::RemoveZone {  }, Stage::ZoneRemoval) => finish_change(event),
            _ => finish_unspecified(),
        }
    }
}

} // verus!
