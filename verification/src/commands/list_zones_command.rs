//! Listing the zones: check what the server is, ask for the list, turn it
//! into text and write the text out.

use crate::app_config::cmd_line_parser::{CommandParameters, CommandParametersView};
use crate::commands::workflow::{
    check_server_role,
    explained_failure,
    failure,
    finish_explained,
    finish_failed,
    finish_unspecified,
    finish_well,
    go_on,
    issue,
    server_role_refusal,
    success,
    unspecified_failure,
    Action,
    ActionView,
    Call,
    CallView,
    CommandTargetView,
    Event,
    Reply,
    Stage,
    StepView,
    WorkflowStep,
};
use crate::rest_client::server_resource_client::QueryServerRequestEvent;
use crate::rest_client::zone_resource_client::ListZonesRequestEvent;
use crate::text::copy_optional_string;
use vstd::prelude::*;
use vstd::string::*;

verus! {

/// The first step of the workflow: ask the server what it is. Parameters of
/// another command end the workflow at once.
pub open spec fn list_zones_begin(parameters: CommandParametersView) -> StepView {
    if parameters is QueryZone {
        issue(CallView::QueryServer, Stage::ServerRole)
    } else {
        unspecified_failure()
    }
}

/// The step that follows on `event` at `stage`. The list that the server
/// sends is turned into text, and the text is written to the file that the
/// parameters name, or to standard output. A list that cannot be turned into
/// text ends the workflow with a failure of the tool's own, a text that
/// cannot be written with the complaint of the write.
pub open spec fn list_zones_resume(parameters: CommandParametersView, stage: Stage, event: Event)
    -> StepView {
    if !(parameters is QueryZone) {
        unspecified_failure()
    } else {
        match stage {
            Stage::ServerRole => match server_role_refusal(event) {
                Some(end) => end,
                None => issue(CallView::ListZones, Stage::ZoneListing),
            },
            Stage::ZoneListing => match event {
                Event::Reply(Ok(Reply::Zones(zones))) => StepView::Continue {
                    action: ActionView::Encode(zones),
                    stage: Stage::Encoding,
                },
                Event::Reply(Err(error)) => failure(error),
                _ => unspecified_failure(),
            },
            Stage::Encoding => match event {
                Event::Encoded(Some(text)) => StepView::Continue {
                    action: ActionView::Write {
                        text: text@,
                        output_file: parameters->output_file,
                    },
                    stage: Stage::Writing,
                },
                _ => unspecified_failure(),
            },
            Stage::Writing => match event {
                Event::Written(Ok(_)) => success(),
                Event::Written(Err(complaint)) => explained_failure(complaint@),
                _ => unspecified_failure(),
            },
            _ => unspecified_failure(),
        }
    }
}

/// Begins the listing.
pub fn begin_listing(parameters: &CommandParameters) -> (step: WorkflowStep)
    ensures
        step@ == list_zones_begin(parameters@),
{
    match parameters {
        CommandParameters::QueryZone { .. } => go_on(
            Call::QueryServer(QueryServerRequestEvent::new()),
            Stage::ServerRole,
        ),
        _ => finish_unspecified(),
    }
}

/// Goes on with the listing after `event` came in at `stage`.
pub fn resume_listing(parameters: &CommandParameters, stage: Stage, event: Event) -> (step:
    WorkflowStep)
    ensures
        step@ == list_zones_resume(parameters@, stage, event),
{
    let output_file = match parameters {
        CommandParameters::QueryZone { output_file } => output_file,
        _ => {
            return finish_unspecified();
        },
    };
    match stage {
        Stage::ServerRole => match check_server_role(event) {
            Some(end) => end,
            None => go_on(Call::ListZones(ListZonesRequestEvent::new()), Stage::ZoneListing),
        },
        Stage::ZoneListing => match event {
            Event::Reply(Ok(Reply::Zones(zones))) => WorkflowStep::Continue {
                action: Action::Encode(zones),
                stage: Stage::Encoding,
            },
            Event::Reply(Err(error)) => finish_failed(error),
            _ => finish_unspecified(),
        },
        Stage::Encoding => match event {
            Event::Encoded(Some(text)) => WorkflowStep::Continue {
                action: Action::Write { text, output_file: copy_optional_string(output_file) },
                stage: Stage::Writing,
            },
            _ => finish_unspecified(),
        },
        Stage::Writing => match event {
            Event::Written(Ok(_)) => finish_well(),
            Event::Written(Err(complaint)) => finish_explained(&complaint),
            _ => finish_unspecified(),
        },
        _ => finish_unspecified(),
    }
}

/// The command that lists the zones.
pub struct ListZonesCommand {
    base_uri: String,
    api_key: String,
    zone_name: String,
}

impl View for ListZonesCommand {
    type V = CommandTargetView;

    closed spec fn view(&self) -> CommandTargetView {
        CommandTargetView {
            base_uri: self.base_uri@,
            api_key: self.api_key@,
            zone_name: self.zone_name@,
        }
    }
}

impl ListZonesCommand {
    pub fn new(base_uri: &String, api_key: &String, zone_name: &String) -> (command:
        ListZonesCommand)
        ensures
            command@ == (CommandTargetView {
                base_uri: base_uri@,
                api_key: api_key@,
                zone_name: zone_name@,
            }),
    {
        ListZonesCommand {
            base_uri: base_uri.clone(),
            api_key: api_key.clone(),
            zone_name: zone_name.clone(),
        }
    }

    /// Begins the workflow.
    pub fn execute_command(&self, parameters: &CommandParameters) -> (step: WorkflowStep)
        ensures
            step@ == list_zones_begin(parameters@),
    {
        begin_listing(parameters)
    }

    /// Goes on with the workflow after `event` came in at `stage`.
    pub fn resume(&self, parameters: &CommandParameters, stage: Stage, event: Event) -> (step:
        WorkflowStep)
        ensures
            step@ == list_zones_resume(parameters@, stage, event),
    {
        resume_listing(parameters, stage, event)
    }
}

} // verus!
