//! The handler that finds the workflow of a command, and that knows which
//! exchange with the server each call of a workflow stands for.

use crate::app_config::cmd_line_parser::{Command, CommandKind, CommandView};
use crate::clock::{date_pattern, utc_text};
use crate::commands::add_entry_command::{add_entry_begin, add_entry_resume, AddEntryCommand};
use crate::commands::add_zone_command::{add_zone_begin, add_zone_resume, AddZoneCommand};
use crate::commands::list_zones_command::{list_zones_begin, list_zones_resume};
use crate::commands::query_zone_command::QueryZoneCommand;
use crate::commands::remove_entry_command::{
    remove_entry_begin,
    remove_entry_resume,
    RemoveEntryCommand,
};
use crate::commands::remove_zone_command::{
    remove_zone_begin,
    remove_zone_resume,
    RemoveZoneCommand,
};
use crate::commands::workflow::{
    Call,
    CallView,
    CommandTargetView,
    Event,
    Stage,
    StepView,
    WorkflowStep,
};
use crate::rest_client::client_request_builder::{ClientRequestBuilderView, HttpVerb};
use crate::rest_client::errors::{RestClientError, RestClientErrorView};
use crate::rest_client::pdns_resource_client::{
    spec_operation,
    Operation,
    OperationView,
    RequestBodyView,
};
use crate::rest_client::server_resource_client::{server_path, ServerResourceClient};
use crate::rest_client::zone_resource_client::{
    spec_add_entry_body,
    spec_create_zone_body,
    spec_remove_entry_body,
    zone_path,
    zones_path,
    ZoneResourceClient,
};
use vstd::prelude::*;
use vstd::string::*;

verus! {

/// The first step of the workflow of a command.
pub open spec fn begin(zone_name: Seq<char>, command: CommandView) -> StepView {
    match command.kind {
        CommandKind::AddZone => add_zone_begin(command.parameters),
        CommandKind::RemoveZone => remove_zone_begin(zone_name, command.parameters),
        CommandKind::QueryZone => list_zones_begin(command.parameters),
        CommandKind::AddEntry => add_entry_begin(command.parameters),
        CommandKind::RemoveEntry => remove_entry_begin(command.parameters),
    }
}

/// The step of the workflow of a command that follows on `event` at `stage`.
pub open spec fn resume(zone_name: Seq<char>, command: CommandView, stage: Stage, event: Event)
    -> StepView {
    match command.kind {
        CommandKind::AddZone => add_zone_resume(zone_name, command.parameters, stage, event),
        CommandKind::RemoveZone => remove_zone_resume(command.parameters, stage, event),
        CommandKind::QueryZone => list_zones_resume(command.parameters, stage, event),
        CommandKind::AddEntry => add_entry_resume(zone_name, command.parameters, stage, event),
        CommandKind::RemoveEntry => remove_entry_resume(
            zone_name,
            command.parameters,
            stage,
            event,
        ),
    }
}

/// The exchange with the server that a call stands for: its verb, the
/// resource it goes to and the body it carries. `date_stamp` is the day on
/// which a zone is created.
pub open spec fn call_operation(
    server: ClientRequestBuilderView,
    call: CallView,
    date_stamp: Seq<char>,
) -> OperationView {
    match call {
        CallView::QueryServer => spec_operation(
            server,
            HttpVerb::Get,
            server_path(),
            RequestBodyView::Empty,
        ),
        CallView::QueryZone { zone_name } => spec_operation(
            server,
            HttpVerb::Get,
            zone_path(zone_name),
            RequestBodyView::Empty,
        ),
        CallView::ListZones => spec_operation(
            server,
            HttpVerb::Get,
            zones_path(),
            RequestBodyView::Empty,
        ),
        CallView::CreateZone(request) => spec_operation(
            server,
            HttpVerb::Post,
            zones_path(),
            RequestBodyView::NewZone(spec_create_zone_body(request, date_stamp)),
        ),
        CallView::RemoveZone { zone_name } => spec_operation(
            server,
            HttpVerb::Delete,
            zone_path(zone_name),
            RequestBodyView::Empty,
        ),
        CallView::AddEntry(request) => spec_operation(
            server,
            HttpVerb::Patch,
            zone_path(request.zone_name),
            RequestBodyView::Rrsets(spec_add_entry_body(request)),
        ),
        CallView::RemoveEntry { zone_name, record_key, record_type } => spec_operation(
            server,
            HttpVerb::Patch,
            zone_path(zone_name),
            RequestBodyView::Rrsets(spec_remove_entry_body(record_key, record_type)),
        ),
    }
}

/// What the tool says when a zone is to be created at a moment that has no
/// calendar date.
pub open spec fn no_date_message() -> Seq<char> {
    "The clock shows no calendar date"@
}

/// The handler of commands against one server and one zone.
pub struct CommandHandler {
    server_resource_client: ServerResourceClient,
    zone_resource_client: ZoneResourceClient,
    zone_name: String,
    add_zone: AddZoneCommand,
    remove_zone: RemoveZoneCommand,
    query_zone: QueryZoneCommand,
    add_entry: AddEntryCommand,
    remove_entry: RemoveEntryCommand,
}

impl View for CommandHandler {
    type V = CommandTargetView;

    closed spec fn view(&self) -> CommandTargetView {
        CommandTargetView {
            base_uri: self.server_resource_client@.base_uri,
            api_key: self.server_resource_client@.api_key,
            zone_name: self.zone_name@,
        }
    }
}

impl CommandTargetView {
    /// The server that the target names.
    pub open spec fn server(self) -> ClientRequestBuilderView {
        ClientRequestBuilderView { base_uri: self.base_uri, api_key: self.api_key }
    }
}

impl CommandHandler {
    /// The parts of a handler agree on server and zone.
    #[verifier::type_invariant]
    spec fn coherent(&self) -> bool {
        &&& self.zone_resource_client@ == self.server_resource_client@
        &&& self.add_zone@.zone_name == self.zone_name@
        &&& self.remove_zone@.zone_name == self.zone_name@
        &&& self.add_entry@.zone_name == self.zone_name@
        &&& self.remove_entry@.zone_name == self.zone_name@
    }

    /// A handler for commands about `zone_name` on the server at `base_uri`.
    pub fn new(base_uri: &String, api_key: &String, zone_name: &String) -> (handler:
        CommandHandler)
        ensures
            handler@ == (CommandTargetView {
                base_uri: base_uri@,
                api_key: api_key@,
                zone_name: zone_name@,
            }),
    {
        CommandHandler {
            server_resource_client: ServerResourceClient::new(base_uri, api_key),
            zone_resource_client: ZoneResourceClient::new(base_uri, api_key),
            zone_name: zone_name.clone(),
            add_zone: AddZoneCommand::new(base_uri, api_key, zone_name),
            remove_zone: RemoveZoneCommand::new(base_uri, api_key, zone_name),
            query_zone: QueryZoneCommand::new(base_uri, api_key, zone_name),
            add_entry: AddEntryCommand::new(base_uri, api_key, zone_name),
            remove_entry: RemoveEntryCommand::new(base_uri, api_key, zone_name),
        }
    }

    /// Begins the workflow of a command.
    pub fn execute_command(&self, command: &Command) -> (step: WorkflowStep)
        ensures
            step@ == begin(self@.zone_name, command@),
    {
        proof {
            use_type_invariant(self);
        }
        let parameters = command.parameters_ref();
        match command.kind() {
            CommandKind::AddZone => self.add_zone.execute_command(parameters),
            CommandKind::RemoveZone => self.remove_zone.execute_command(parameters),
            CommandKind::QueryZone => self.query_zone.execute_command(parameters),
            CommandKind::AddEntry => self.add_entry.execute_command(parameters),
            CommandKind::RemoveEntry => self.remove_entry.execute_command(parameters),
        }
    }

    /// Goes on with the workflow of a command after `event` came in at
    /// `stage`.
    pub fn resume(&self, command: &Command, stage: Stage, event: Event) -> (step: WorkflowStep)
        ensures
            step@ == resume(self@.zone_name, command@, stage, event),
    {
        proof {
            use_type_invariant(self);
        }
        let parameters = command.parameters_ref();
        match command.kind() {
            CommandKind::AddZone => self.add_zone.resume(parameters, stage, event),
            CommandKind::RemoveZone => self.remove_zone.resume(parameters, stage, event),
            CommandKind::QueryZone => self.query_zone.resume(parameters, stage, event),
            CommandKind::AddEntry => self.add_entry.resume(parameters, stage, event),
            CommandKind::RemoveEntry => self.remove_entry.resume(parameters, stage, event),
        }
    }

    /// Begins the exchange that a call stands for, on the day `date_stamp`.
    pub fn begin_call_on(&self, call: &Call, date_stamp: &str) -> (operation: Operation)
        ensures
            operation@ == call_operation(self@.server(), call@, date_stamp@),
    {
        proof {
            use_type_invariant(self);
        }
        match call {
            Call::QueryServer(request) => self.server_resource_client.spawn_query(request),
            Call::QueryZone(request) => self.zone_resource_client.spawn_query(request),
            Call::ListZones(request) => self.zone_resource_client.spawn_list_zones(request),
            Call::CreateZone(request) => self.zone_resource_client.spawn_create_on(
                request,
                date_stamp,
            ),
            Call::RemoveZone(request) => self.zone_resource_client.spawn_remove(request),
            Call::AddEntry(request) => self.zone_resource_client.spawn_add_entry(request),
            Call::RemoveEntry(request) => self.zone_resource_client.spawn_remove_entry(request),
        }
    }

    /// Begins the exchange that a call stands for, today. Only the creation
    /// of a zone depends on the day. It fails where the clock stands at a
    /// moment without calendar date.
    pub fn begin_call(&self, call: &Call) -> (result: Result<Operation, RestClientError>)
        ensures
            if call@ is CreateZone {
                match result {
                    Ok(operation) => exists|seconds: i64| #[trigger]
                        utc_text(seconds, date_pattern()) matches Some(date_stamp) && operation@
                            == call_operation(self@.server(), call@, date_stamp),
                    Err(error) => error@ == (RestClientErrorView::UnspecifiedError {
                        message: Some(no_date_message()),
                    }),
                }
            } else {
                result matches Ok(operation) && operation@ == call_operation(
                    self@.server(),
                    call@,
                    Seq::empty(),
                )
            },
    {
        proof {
            use_type_invariant(self);
        }
        match call {
            Call::CreateZone(request) => match self.zone_resource_client.spawn_create(request) {
                Some(operation) => Ok(operation),
                None => Err(
                    RestClientError::on_unspecified_error_message(
                        &String::from_str("The clock shows no calendar date"),
                    ),
                ),
            },
            _ => Ok(self.begin_call_on(call, "")),
        }
    }
}

} // verus!
