//! Adding a zone: check what the server is, look for the zone, and create it
//! where it is not there yet.

use crate::app_config::cmd_line_parser::{CommandParameters, CommandParametersView};
use crate::commands::workflow::{
    check_server_role,
    finish_failed,
    finish_unspecified,
    finish_well,
    finish_zone_made,
    go_on,
    after_zone_made,
    failure,
    issue,
    server_role_refusal,
    success,
    unspecified_failure,
    Call,
    CallView,
    CommandTargetView,
    Event,
    Reply,
    Stage,
    StepView,
    WorkflowStep,
};
use crate::rest_client::server_resource_client::QueryServerRequestEvent;
use crate::rest_client::zone_resource_client::{
    CreateZoneRequestEvent,
    CreateZoneRequestEventView,
    QueryZoneRequestEvent,
};
use vstd::prelude::*;
use vstd::string::*;

verus! {

/// The request that creates the zone, as the parameters of the command
/// describe it.
pub open spec fn creation_request(zone_name: Seq<char>, parameters: CommandParametersView)
    -> CreateZoneRequestEventView
    recommends
        parameters is AddZone,
{
    CreateZoneRequestEventView {
        zone_name,
        refresh: parameters->refresh,
        retry: parameters->retry,
        expire: parameters->expire,
        neg_caching: parameters->neg_caching,
        masters: parameters->masters,
        nameservers: parameters->nameservers,
        account: parameters->account,
    }
}

/// The first step of the workflow: ask the server what it is. Parameters of
/// another command end the workflow at once.
pub open spec fn add_zone_begin(parameters: CommandParametersView) -> StepView {
    if parameters is AddZone {
        issue(CallView::QueryServer, Stage::ServerRole)
    } else {
        unspecified_failure()
    }
}

/// The step that follows on `event` at `stage`. A zone that is there ends
/// the workflow well, and nothing is created. A zone that the server does
/// not know is created, and the outcome of that call is the outcome of the
/// workflow. Any other failure ends the workflow as it is.
pub open spec fn add_zone_resume(
    zone_name: Seq<char>,
    parameters: CommandParametersView,
    stage: Stage,
    event: Event,
) -> StepView {
    if !(parameters is AddZone) {
        unspecified_failure()
    } else {
        match stage {
            Stage::ServerRole => match server_role_refusal(event) {
                Some(end) => end,
                None => issue(CallView::QueryZone { zone_name }, Stage::ZoneLookup),
            },
            Stage::ZoneLookup => match event {
                Event::Reply(Ok(Reply::Zone(_))) => success(),
                Event::Reply(Err(error)) => if error.is_not_found() {
                    issue(
                        CallView::CreateZone(creation_request(zone_name, parameters)),
                        Stage::ZoneCreation,
                    )
                } else {
                    failure(error)
                },
                _ => unspecified_failure(),
            },
            Stage::ZoneCreation => after_zone_made(event),
            _ => unspecified_failure(),
        }
    }
}

/// The command that adds a zone.
pub struct AddZoneCommand {
    base_uri: String,
    api_key: String,
    zone_name: String,
}

impl View for AddZoneCommand {
    type V = CommandTargetView;

    closed spec fn view(&self) -> CommandTargetView {
        CommandTargetView {
            base_uri: self.base_uri@,
            api_key: self.api_key@,
            zone_name: self.zone_name@,
        }
    }
}

impl AddZoneCommand {
    pub fn new(base_uri: &String, api_key: &String, zone_name: &String) -> (command:
        AddZoneCommand)
        ensures
            command@ == (CommandTargetView {
                base_uri: base_uri@,
                api_key: api_key@,
                zone_name: zone_name@,
            }),
    {
        AddZoneCommand {
            base_uri: base_uri.clone(),
            api_key: api_key.clone(),
            zone_name: zone_name.clone(),
        }
    }

    /// Begins the workflow.
    pub fn execute_command(&self, parameters: &CommandParameters) -> (step: WorkflowStep)
        ensures
            step@ == add_zone_begin(parameters@),
    {
        match parameters {
            CommandParameters::AddZone { .. } => go_on(
                Call::QueryServer(QueryServerRequestEvent::new()),
                Stage::ServerRole,
            ),
            _ => finish_unspecified(),
        }
    }

    /// Goes on with the workflow after `event` came in at `stage`.
    pub fn resume(&self, parameters: &CommandParameters, stage: Stage, event: Event) -> (step:
        WorkflowStep)
        ensures
            step@ == add_zone_resume(self@.zone_name, parameters@, stage, event),
    {
        match parameters {
            CommandParameters::AddZone { .. } => {},
            _ => {
                return finish_unspecified();
            },
        }
        match stage {
            Stage::ServerRole => match check_server_role(event) {
                Some(end) => end,
                None => self.execute_get_zone(),
            },
            Stage::ZoneLookup => match event {
                Event::Reply(Ok(Reply::Zone(_))) => finish_well(),
                Event::Reply(Err(error)) => {
                    if error.not_found() {
                        self.execute_create_zone(parameters)
                    } else {
                        finish_failed(error)
                    }
                },
                _ => finish_unspecified(),
            },
            Stage::ZoneCreation => finish_zone_made(event),
            _ => finish_unspecified(),
        }
    }

    /// The step that looks for the zone.
    fn execute_get_zone(&self) -> (step: WorkflowStep)
        ensures
            step@ == issue(CallView::QueryZone { zone_name: self@.zone_name }, Stage::ZoneLookup),
    {
        go_on(Call::QueryZone(QueryZoneRequestEvent::new(&self.zone_name)), Stage::ZoneLookup)
    }

    /// The step that creates the zone.
    fn execute_create_zone(&self, parameters: &CommandParameters) -> (step: WorkflowStep)
        requires
            parameters is AddZone,
        ensures
            step@ == issue(
                CallView::CreateZone(creation_request(self@.zone_name, parameters@)),
                Stage::ZoneCreation,
            ),
    {
        match parameters {
            CommandParameters::AddZone {
                refresh,
                retry,
                expire,
                neg_caching,
                masters,
                nameservers,
                account,
            } => go_on(
                Call::CreateZone(
                    CreateZoneRequestEvent::new(
                        &self.zone_name,
                        *refresh,
                        *retry,
                        *expire,
                        *neg_caching,
                        masters,
                        nameservers,
                        account,
                    ),
                ),
                Stage::ZoneCreation,
            ),
            _ => finish_unspecified(),
        }
    }
}

} // verus!
