//! Adding an entry: check what the server is, look for the zone, and set the
//! records where the zone is there.

use crate::app_config::cmd_line_parser::{CommandParameters, CommandParametersView};
use crate::commands::workflow::{
    after_change,
    check_server_role,
    explained_failure,
    failure,
    finish_change,
    finish_explained,
    finish_failed,
    finish_unspecified,
    finish_well,
    go_on,
    issue,
    server_role_refusal,
    success,
    unspecified_failure,
    Call,
    CallView,
    CommandTargetView,
    Event,
    Reply,
    Stage,
    StepView,
    WorkflowStep,
};
use crate::pdns::zone::RrsetType;
use crate::rest_client::server_resource_client::QueryServerRequestEvent;
use crate::rest_client::zone_resource_client::{
    qualified_key,
    qualify_record_key,
    AddEntryRequestEvent,
    AddEntryRequestEventView,
    QueryZoneRequestEvent,
};
use vstd::prelude::*;
use vstd::string::*;

verus! {

/// The end of a workflow that was asked for a record type which the tool
/// does not handle.
pub open spec fn unsupported_record_type(record_type: Seq<char>) -> StepView {
    explained_failure("Unsupported record type: "@ + record_type)
}

/// Ends a workflow that was asked for a record type which the tool does not
/// handle.
pub fn finish_unsupported(record_type: &String) -> (step: WorkflowStep)
    ensures
        step@ == unsupported_record_type(record_type@),
{
    let mut message = String::from_str("Unsupported record type: ");
    message.append(record_type.as_str());
    finish_explained(&message)
}

/// The first step of the workflow: ask the server what it is. Parameters of
/// another command end the workflow at once, and so does a record type that
/// the tool does not handle.
pub open spec fn add_entry_begin(parameters: CommandParametersView) -> StepView {
    match parameters {
        CommandParametersView::AddEntry { record_type, .. } => if RrsetType::spec_from_name(
            record_type,
        ) is Some {
            issue(CallView::QueryServer, Stage::ServerRole)
        } else {
            unsupported_record_type(record_type)
        },
        _ => unspecified_failure(),
    }
}

/// The step that follows on `event` at `stage`. Where the zone is there, its
/// records of the given name and type are set; the name is the key made
/// full within the zone. Where the server does not know the zone, there is
/// nothing to add to, and the workflow ends well. Any other failure ends the
/// workflow as it is.
pub open spec fn add_entry_resume(
    zone_name: Seq<char>,
    parameters: CommandParametersView,
    stage: Stage,
    event: Event,
) -> StepView {
    match parameters {
        CommandParametersView::AddEntry { record_key, record_value, record_type, time_to_live } =>
            match RrsetType::spec_from_name(record_type) {
                None => unsupported_record_type(record_type),
                Some(type_id) => match stage {
                    Stage::ServerRole => match server_role_refusal(event) {
                        Some(end) => end,
                        None => issue(CallView::QueryZone { zone_name }, Stage::ZoneLookup),
                    },
                    Stage::ZoneLookup => match event {
                        Event::Reply(Ok(Reply::Zone(_))) => issue(
                            CallView::AddEntry(
                                AddEntryRequestEventView {
                                    zone_name,
                                    record_key: qualified_key(record_key, zone_name),
                                    record_type: type_id,
                                    record_value,
                                    time_to_live,
                                },
                            ),
                            Stage::EntryChange,
                        ),
                        Event::Reply(Err(error)) => if error.is_not_found() {
                            success()
                        } else {
                            failure(error)
                        },
                        _ => unspecified_failure(),
                    },
                    Stage::EntryChange => after_change(event),
                    _ => unspecified_failure(),
                },
            },
        _ => unspecified_failure(),
    }
}

/// The command that adds an entry to a zone.
pub struct AddEntryCommand {
    base_uri: String,
    api_key: String,
    zone_name: String,
}

impl View for AddEntryCommand {
    type V = CommandTargetView;

    closed spec fn view(&self) -> CommandTargetView {
        CommandTargetView {
            base_uri: self.base_uri@,
            api_key: self.api_key@,
            zone_name: self.zone_name@,
        }
    }
}

impl AddEntryCommand {
    pub fn new(base_uri: &String, api_key: &String, zone_name: &String) -> (command:
        AddEntryCommand)
        ensures
            command@ == (CommandTargetView {
                base_uri: base_uri@,
                api_key: api_key@,
                zone_name: zone_name@,
            }),
    {
        AddEntryCommand {
            base_uri: base_uri.clone(),
            api_key: api_key.clone(),
            zone_name: zone_name.clone(),
        }
    }

    /// Begins the workflow.
    pub fn execute_command(&self, parameters: &CommandParameters) -> (step: WorkflowStep)
        ensures
            step@ == add_entry_begin(parameters@),
    {
        match parameters {
            CommandParameters::AddEntry { record_type, .. } => {
                match RrsetType::from_name(record_type.as_str()) {
                    Some(_) => go_on(
                        Call::QueryServer(QueryServerRequestEvent::new()),
                        Stage::ServerRole,
                    ),
                    None => finish_unsupported(record_type),
                }
            },
            _ => finish_unspecified(),
        }
    }

    /// Goes on with the workflow after `event` came in at `stage`.
    pub fn resume(&self, parameters: &CommandParameters, stage: Stage, event: Event) -> (step:
        WorkflowStep)
        ensures
            step@ == add_entry_resume(self@.zone_name, parameters@, stage, event),
    {
        match parameters {
            CommandParameters::AddEntry { record_key, record_value, record_type, time_to_live } => {
                match RrsetType::from_name(record_type.as_str()) {
                    None => finish_unsupported(record_type),
                    Some(type_id) => match stage {
                        Stage::ServerRole => match check_server_role(event) {
                            Some(end) => end,
                            None => self.execute_get_zone(),
                        },
                        Stage::ZoneLookup => match event {
                            Event::Reply(Ok(Reply::Zone(_))) => self.execute_add_entry(
                                record_key,
                                type_id,
                                record_value,
                                *time_to_live,
                            ),
                            Event::Reply(Err(error)) => {
                                if error.not_found() {
                                    finish_well()
                                } else {
                                    finish_failed(error)
                                }
                            },
                            _ => finish_unspecified(),
                        },
                        Stage::EntryChange => finish_change(event),
                        _ => finish_unspecified(),
                    },
                }
            },
            _ => finish_unspecified(),
        }
    }

    /// The step that looks for the zone.
    fn execute_get_zone(&self) -> (step: WorkflowStep)
        ensures
            step@ == issue(CallView::QueryZone { zone_name: self@.zone_name }, Stage::ZoneLookup),
    {
        go_on(Call::QueryZone(QueryZoneRequestEvent::new(&self.zone_name)), Stage::ZoneLookup)
    }

    /// The step that sets the records.
    fn execute_add_entry(
        &self,
        record_key: &String,
        record_type: RrsetType,
        record_value: &Vec<String>,
        time_to_live: u32,
    ) -> (step: WorkflowStep)
        ensures
            step@ == issue(
                CallView::AddEntry(
                    AddEntryRequestEventView {
                        zone_name: self@.zone_name,
                        record_key: qualified_key(record_key@, self@.zone_name),
                        record_type,
                        record_value: record_value.deep_view(),
                        time_to_live,
                    },
                ),
                Stage::EntryChange,
            ),
    {
        let key = qualify_record_key(record_key, &self.zone_name);
        go_on(
            Call::AddEntry(
                AddEntryRequestEvent::new(
                    &self.zone_name,
                    &key,
                    record_type,
                    record_value,
                    time_to_live,
                ),
            ),
            Stage::EntryChange,
        )
    }
}

} // verus!
