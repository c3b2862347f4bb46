//! The vocabulary of workflows. A workflow is a short sequence of calls to
//! the server in which each call waits for the reply to the one before. It
//! does not make the calls itself: it says which action comes next, and is
//! told what came of it.

use crate::pdns::server::{DaemonType, Server};
use crate::pdns::zone::{ListZone, RrsetType, Zone};
use crate::rest_client::errors::{RestClientError, RestClientErrorView};
use crate::rest_client::server_resource_client::QueryServerRequestEvent;
use crate::rest_client::zone_resource_client::{
    AddEntryRequestEvent,
    AddEntryRequestEventView,
    CreateZoneRequestEvent,
    CreateZoneRequestEventView,
    ListZonesRequestEvent,
    QueryZoneRequestEvent,
    RemoveEntryRequestEvent,
    RemoveZoneRequestEvent,
};
use vstd::prelude::*;
use vstd::string::*;

verus! {

/// A call to the server, with what it asks for.
#[derive(Clone, Debug, PartialEq, Eq)]
pub enum Call {
    QueryServer(QueryServerRequestEvent),
    QueryZone(QueryZoneRequestEvent),
    ListZones(ListZonesRequestEvent),
    CreateZone(CreateZoneRequestEvent),
    RemoveZone(RemoveZoneRequestEvent),
    AddEntry(AddEntryRequestEvent),
    RemoveEntry(RemoveEntryRequestEvent),
}

/// What a [`Call`] holds.
pub enum CallView {
    QueryServer,
    QueryZone { zone_name: Seq<char> },
    ListZones,
    CreateZone(CreateZoneRequestEventView),
    RemoveZone { zone_name: Seq<char> },
    AddEntry(AddEntryRequestEventView),
    RemoveEntry { zone_name: Seq<char>, record_key: Seq<char>, record_type: RrsetType },
}

impl View for Call {
    type V = CallView;

    open spec fn view(&self) -> CallView {
        match self {
            Call::QueryServer(_) => CallView::QueryServer,
            Call::QueryZone(request) => CallView::QueryZone { zone_name: request.zone_name@ },
            Call::ListZones(_) => CallView::ListZones,
            Call::CreateZone(request) => CallView::CreateZone(request@),
            Call::RemoveZone(request) => CallView::RemoveZone { zone_name: request.zone_name@ },
            Call::AddEntry(request) => CallView::AddEntry(request@),
            Call::RemoveEntry(request) => CallView::RemoveEntry {
                zone_name: request.zone_name@,
                record_key: request.record_key@,
                record_type: request.record_type,
            },
        }
    }
}

/// The kind of payload that a call brings back when it succeeds.
#[derive(Clone, Copy, Debug, PartialEq, Eq, Structural)]
pub enum PayloadKind {
    Server,
    Zone,
    Zones,
    /// The call has no payload.
    Nothing,
}

impl CallView {
    /// The kind of payload that the call brings back when it succeeds: the
    /// server for the question what it is, the zone for a query and for a
    /// creation, the list for the listing, and nothing for a removal or a
    /// change of records.
    pub open spec fn payload(self) -> PayloadKind {
        match self {
            CallView::QueryServer => PayloadKind::Server,
            CallView::QueryZone { .. } | CallView::CreateZone(_) => PayloadKind::Zone,
            CallView::ListZones => PayloadKind::Zones,
            CallView::RemoveZone { .. } | CallView::AddEntry(_) | CallView::RemoveEntry { .. } =>
                PayloadKind::Nothing,
        }
    }
}

impl Call {
    /// The kind of payload that the call brings back when it succeeds.
    pub fn payload(&self) -> (kind: PayloadKind)
        ensures
            kind == self@.payload(),
    {
        match self {
            Call::QueryServer(_) => PayloadKind::Server,
            Call::QueryZone(_) | Call::CreateZone(_) => PayloadKind::Zone,
            Call::ListZones(_) => PayloadKind::Zones,
            Call::RemoveZone(_) | Call::AddEntry(_) | Call::RemoveEntry(_) => PayloadKind::Nothing,
        }
    }
}

/// What a call that succeeded brought back.
#[derive(Clone, Debug)]
pub enum Reply {
    Server(Server),
    Zone(Zone),
    Zones(Vec<ListZone>),
    /// The call has no payload.
    Done,
}

/// What came of the action that a workflow asked for.
#[derive(Debug)]
pub enum Event {
    /// The call came back with a payload, or failed.
    Reply(Result<Reply, RestClientError>),
    /// The list of zones was turned into text, or could not be.
    Encoded(Option<String>),
    /// The text was written, or writing failed with a complaint.
    Written(Result<(), String>),
}

/// The point that a workflow has reached: what it is waiting for.
#[derive(Clone, Copy, Debug, PartialEq, Eq, Structural)]
pub enum Stage {
    /// The server was asked what it is.
    ServerRole,
    /// The server was asked for the zone.
    ZoneLookup,
    /// The server was asked to create the zone.
    ZoneCreation,
    /// The server was asked to remove the zone.
    ZoneRemoval,
    /// The server was asked for the list of zones.
    ZoneListing,
    /// The server was asked to set or remove records.
    EntryChange,
    /// The list of zones is being turned into text.
    Encoding,
    /// The text is being written.
    Writing,
}

/// What is to be done next on behalf of a workflow.
#[derive(Debug)]
pub enum Action {
    /// Make the call and report its reply.
    Issue(Call),
    /// Turn the list of zones into text and report the text.
    Encode(Vec<ListZone>),
    /// Write the text to the file, or to standard output where none is
    /// given, and report how that went.
    Write { text: String, output_file: Option<String> },
}

/// What an [`Action`] holds.
pub enum ActionView {
    Issue(CallView),
    Encode(Vec<ListZone>),
    Write { text: Seq<char>, output_file: Option<Seq<char>> },
}

impl View for Action {
    type V = ActionView;

    open spec fn view(&self) -> ActionView {
        match self {
            Action::Issue(call) => ActionView::Issue(call@),
            Action::Encode(zones) => ActionView::Encode(*zones),
            Action::Write { text, output_file } => ActionView::Write {
                text: text@,
                output_file: output_file.deep_view(),
            },
        }
    }
}

/// One step of a workflow: the next action, or the end.
#[derive(Debug)]
pub enum WorkflowStep {
    /// The workflow goes on: `action` is to be carried out, and what comes
    /// of it is to be handed back together with `stage`.
    Continue { action: Action, stage: Stage },
    /// The workflow is over.
    Finish { outcome: Result<(), RestClientError> },
}

/// What a [`WorkflowStep`] holds.
pub enum StepView {
    Continue { action: ActionView, stage: Stage },
    Finish { outcome: Result<(), RestClientErrorView> },
}

impl View for WorkflowStep {
    type V = StepView;

    open spec fn view(&self) -> StepView {
        match self {
            WorkflowStep::Continue { action, stage } => StepView::Continue {
                action: action@,
                stage: *stage,
            },
            WorkflowStep::Finish { outcome } => StepView::Finish {
                outcome: match outcome {
                    Ok(_) => Ok(()),
                    Err(error) => Err(error@),
                },
            },
        }
    }
}

/// What the three fields of a command hold: the server, the key that opens
/// it, and the zone that the command is about.
pub struct CommandTargetView {
    pub base_uri: Seq<char>,
    pub api_key: Seq<char>,
    pub zone_name: Seq<char>,
}

/// The end of a workflow that went well.
pub open spec fn success() -> StepView {
    StepView::Finish { outcome: Ok(()) }
}

/// The end of a workflow that fails for a reason of the tool's own.
pub open spec fn unspecified_failure() -> StepView {
    StepView::Finish { outcome: Err(RestClientErrorView::UnspecifiedError { message: None }) }
}

/// The end of a workflow that fails for a stated reason of the tool's own.
pub open spec fn explained_failure(message: Seq<char>) -> StepView {
    StepView::Finish {
        outcome: Err(RestClientErrorView::UnspecifiedError { message: Some(message) }),
    }
}

/// The end of a workflow that fails with the failure of a call, unchanged.
pub open spec fn failure(error: RestClientError) -> StepView {
    StepView::Finish { outcome: Err(error@) }
}

/// A step that makes a call.
pub open spec fn issue(call: CallView, stage: Stage) -> StepView {
    StepView::Continue { action: ActionView::Issue(call), stage }
}

/// The end that the check of the server's role puts to a workflow, if it
/// puts one. Only an authoritative server lets the workflow go on. A server
/// of another kind ends it with a failure of the tool's own, a failed call
/// with that failure.
pub open spec fn server_role_refusal(event: Event) -> Option<StepView> {
    match event {
        Event::Reply(Ok(Reply::Server(server))) => if server.daemon_type
            == DaemonType::Authoritative {
            None
        } else {
            Some(unspecified_failure())
        },
        Event::Reply(Err(error)) => Some(failure(error)),
        _ => Some(unspecified_failure()),
    }
}

/// The step behind the last call of a workflow, where that call brings back
/// a zone.
pub open spec fn after_zone_made(event: Event) -> StepView {
    match event {
        Event::Reply(Ok(Reply::Zone(_))) => success(),
        Event::Reply(Err(error)) => failure(error),
        _ => unspecified_failure(),
    }
}

/// The step behind the last call of a workflow, where that call brings back
/// nothing.
pub open spec fn after_change(event: Event) -> StepView {
    match event {
        Event::Reply(Ok(Reply::Done)) => success(),
        Event::Reply(Err(error)) => failure(error),
        _ => unspecified_failure(),
    }
}

/// Ends a workflow well.
pub fn finish_well() -> (step: WorkflowStep)
    ensures
        step@ == success(),
{
    WorkflowStep::Finish { outcome: Ok(()) }
}

/// Ends a workflow with a failure of the tool's own.
pub fn finish_unspecified() -> (step: WorkflowStep)
    ensures
        step@ == unspecified_failure(),
{
    WorkflowStep::Finish { outcome: Err(RestClientError::on_unspecified_error()) }
}

/// Ends a workflow with a stated failure of the tool's own.
pub fn finish_explained(message: &String) -> (step: WorkflowStep)
    ensures
        step@ == explained_failure(message@),
{
    WorkflowStep::Finish { outcome: Err(RestClientError::on_unspecified_error_message(message)) }
}

/// Ends a workflow with the failure of a call.
pub fn finish_failed(error: RestClientError) -> (step: WorkflowStep)
    ensures
        step@ == failure(error),
        step == (WorkflowStep::Finish { outcome: Err(error) }),
{
    WorkflowStep::Finish { outcome: Err(error) }
}

/// Goes on with a call.
pub fn go_on(call: Call, stage: Stage) -> (step: WorkflowStep)
    ensures
        step@ == issue(call@, stage),
{
    WorkflowStep::Continue { action: Action::Issue(call), stage }
}

/// Checks the reply to the question what the server is: the end of the
/// workflow where the check fails, nothing where it passes.
pub fn check_server_role(event: Event) -> (refusal: Option<WorkflowStep>)
    ensures
        match server_role_refusal(event) {
            Some(end) => refusal matches Some(step) && step@ == end,
            None => refusal is None,
        },
{
    match event {
        Event::Reply(Ok(Reply::Server(server))) => {
            if server.daemon_type() == DaemonType::Authoritative {
                None
            } else {
                Some(finish_unspecified())
            }
        },
        Event::Reply(Err(error)) => Some(finish_failed(error)),
        _ => Some(finish_unspecified()),
    }
}

/// Ends a workflow whose last call brings back a zone.
pub fn finish_zone_made(event: Event) -> (step: WorkflowStep)
    ensures
        step@ == after_zone_made(event),
{
    match event {
        Event::Reply(Ok(Reply::Zone(_))) => finish_well(),
        Event::Reply(Err(error)) => finish_failed(error),
        _ => finish_unspecified(),
    }
}

/// Ends a workflow whose last call brings back nothing.
pub fn finish_change(event: Event) -> (step: WorkflowStep)
    ensures
        step@ == after_change(event),
{
    match event {
        Event::Reply(Ok(Reply::Done)) => finish_well(),
        Event::Reply(Err(error)) => finish_failed(error),
        _ => finish_unspecified(),
    }
}

} // verus!
