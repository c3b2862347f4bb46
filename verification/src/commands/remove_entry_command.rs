//! Removing an entry: check what the server is, look for the zone, and
//! remove the records where the zone is there.

use crate::app_config::cmd_line_parser::{CommandParameters, CommandParametersView};
use crate::commands::add_entry_command::{finish_unsupported, unsupported_record_type};
use crate::commands::workflow::{
    after_change,
    check_server_role,
    explained_failure,
    failure,
    finish_change,
    finish_explained,
    finish_failed,
    finish_unspecified,
    finish_well,
    go_on,
    issue,
    server_role_refusal,
    success,
    unspecified_failure,
    Call,
    CallView,
    CommandTargetView,
    Event,
    Reply,
    Stage,
    StepView,
    WorkflowStep,
};
use crate::pdns::zone::RrsetType;
use crate::rest_client::server_resource_client::QueryServerRequestEvent;
use crate::rest_client::zone_resource_client::{
    qualified_key,
    qualify_record_key,
    QueryZoneRequestEvent,
    RemoveEntryRequestEvent,
};
use vstd::prelude::*;
use vstd::string::*;

verus! {

/// The end of a workflow that was handed the parameters of another command.
pub open spec fn parameter_mismatch() -> StepView {
    explained_failure("command parameter mismatch"@)
}

fn finish_mismatch() -> (step: WorkflowStep)
    ensures
        step@ == parameter_mismatch(),
{
    finish_explained(&String::from_str("command parameter mismatch"))
}

/// The first step of the workflow: ask the server what it is. Parameters of
/// another command end the workflow at once, and so does a record type that
/// the tool does not handle.
pub open spec fn remove_entry_begin(parameters: CommandParametersView) -> StepView {
    match parameters {
        CommandParametersView::RemoveEntry { record_type, .. } => if RrsetType::spec_from_name(
            record_type,
        ) is Some {
            issue(CallView::QueryServer, Stage::ServerRole)
        } else {
            unsupported_record_type(record_type)
        },
        _ => parameter_mismatch(),
    }
}

/// The step that follows on `event` at `stage`. Where the zone is there, its
/// records of the given name and type are removed; the name is the key made
/// full within the zone. Where the server does not know the zone, there is
/// nothing to remove, and the workflow ends well. Any other failure ends the
/// workflow as it is.
pub open spec fn remove_entry_resume(
    zone_name: Seq<char>,
    parameters: CommandParametersView,
    stage: Stage,
    event: Event,
) -> StepView {
    match parameters {
        CommandParametersView::RemoveEntry { record_key, record_type } =>
            match RrsetType::spec_from_name(record_type) {
                None => unsupported_record_type(record_type),
                Some(type_id) => match stage {
                    Stage::ServerRole => match server_role_refusal(event) {
                        Some(end) => end,
                        None => issue(CallView::QueryZone { zone_name }, Stage::ZoneLookup),
                    },
                    Stage::ZoneLookup => match event {
                        Event::Reply(Ok(Reply::Zone(_))) => issue(
                            CallView::RemoveEntry {
                                zone_name,
                                record_key: qualified_key(record_key, zone_name),
                                record_type: type_id,
                            },
                            Stage::EntryChange,
                        ),
                        Event::Reply(Err(error)) => if error.is_not_found() {
                            success()
                        } else {
                            failure(error)
                        },
                        _ => unspecified_failure(),
                    },
                    Stage::EntryChange => after_change(event),
                    _ => unspecified_failure(),
                },
            },
        _ => parameter_mismatch(),
    }
}

/// The command that removes an entry from a zone.
pub struct RemoveEntryCommand {
    base_uri: String,
    api_key: String,
    zone_name: String,
}

impl View for RemoveEntryCommand {
    type V = CommandTargetView;

    closed spec fn view(&self) -> CommandTargetView {
        CommandTargetView {
            base_uri: self.base_uri@,
            api_key: self.api_key@,
            zone_name: self.zone_name@,
        }
    }
}

impl RemoveEntryCommand {
    pub fn new(base_uri: &String, api_key: &String, zone_name: &String) -> (command:
        RemoveEntryCommand)
        ensures
            command@ == (CommandTargetView {
                base_uri: base_uri@,
                api_key: api_key@,
                zone_name: zone_name@,
            }),
    {
        RemoveEntryCommand {
            base_uri: base_uri.clone(),
            api_key: api_key.clone(),
            zone_name: zone_name.clone(),
        }
    }

    /// Begins the workflow.
    pub fn execute_command(&self, parameters: &CommandParameters) -> (step: WorkflowStep)
        ensures
            step@ == remove_entry_begin(parameters@),
    {
        match parameters {
            CommandParameters::RemoveEntry { record_type, .. } => {
                match RrsetType::from_name(record_type.as_str()) {
                    Some(_) => go_on(
                        Call::QueryServer(QueryServerRequestEvent::new()),
                        Stage::ServerRole,
                    ),
                    None => finish_unsupported(record_type),
                }
            },
            _ => finish_mismatch(),
        }
    }

    /// Goes on with the workflow after `event` came in at `stage`.
    pub fn resume(&self, parameters: &CommandParameters, stage: Stage, event: Event) -> (step:
        WorkflowStep)
        ensures
            step@ == remove_entry_resume(self@.zone_name, parameters@, stage, event),
    {
        match parameters {
            CommandParameters::RemoveEntry { record_key, record_type } => {
                match RrsetType::from_name(record_type.as_str()) {
                    None => finish_unsupported(record_type),
                    Some(type_id) => match stage {
                        Stage::ServerRole => match check_server_role(event) {
                            Some(end) => end,
                            None => self.execute_get_zone(),
                        },
                        Stage::ZoneLookup => match event {
                            Event::Reply(Ok(Reply::Zone(_))) => self.execute_remove_entry(
                                record_key,
                                type_id,
                            ),
                            Event::Reply(Err(error)) => {
                                if error.not_found() {
                                    finish_well()
                                } else {
                                    finish_failed(error)
                                }
                            },
                            _ => finish_unspecified(),
                        },
                        Stage::EntryChange => finish_change(event),
                        _ => finish_unspecified(),
                    },
                }
            },
            _ => finish_mismatch(),
        }
    }

    /// The step that looks for the zone.
    fn execute_get_zone(&self) -> (step: WorkflowStep)
        ensures
            step@ == issue(CallView::QueryZone { zone_name: self@.zone_name }, Stage::ZoneLookup),
    {
        go_on(Call::QueryZone(QueryZoneRequestEvent::new(&self.zone_name)), Stage::ZoneLookup)
    }

    /// The step that removes the records.
    fn execute_remove_entry(&self, record_key: &String, record_type: RrsetType) -> (step:
        WorkflowStep)
        ensures
            step@ == issue(
                CallView::RemoveEntry {
                    zone_name: self@.zone_name,
                    record_key: qualified_key(record_key@, self@.zone_name),
                    record_type,
                },
                Stage::EntryChange,
            ),
    {
        let key = qualify_record_key(record_key, &self.zone_name);
        go_on(
            Call::RemoveEntry(RemoveEntryRequestEvent::new(&self.zone_name, &key, record_type)),
            Stage::EntryChange,
        )
    }
}

} // verus!
