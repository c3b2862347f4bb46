//! Workflows played through against a server that exists on paper only, and
//! what holds of every such play.

use crate::app_config::cmd_line_parser::{
    command_of,
    is_record_type,
    CommandKind,
    CommandParametersView,
    CommandView,
    ParsedSubcommand,
};
use crate::commands::add_zone_command::creation_request;
use crate::commands::command_handler::{begin, resume};
use crate::commands::workflow::{
    after_change,
    after_zone_made,
    failure,
    ActionView,
    CallView,
    Event,
    Reply,
    Stage,
    StepView,
};
use crate::pdns::server::DaemonType;
use crate::pdns::zone::RrsetType;
use crate::rest_client::errors::{RestClientError, RestClientErrorView};
use crate::rest_client::zone_resource_client::{qualified_key, AddEntryRequestEventView};
use vstd::prelude::*;

verus! {

/// Everything that a workflow meets: how the server answers each call, what
/// the list of zones looks like as text, and how writing goes.
pub struct World {
    pub server: spec_fn(CallView) -> Result<Reply, RestClientError>,
    pub encoded: Option<String>,
    pub written: Result<(), String>,
}

/// A workflow played through: the calls that were made, in order, and how
/// the workflow ended. `ended` says that it did end.
pub struct Run {
    pub calls: Seq<CallView>,
    pub outcome: Result<(), RestClientErrorView>,
    pub ended: bool,
}

impl World {
    /// What comes of an action in this world.
    pub open spec fn event_of(self, action: ActionView) -> Event {
        match action {
            ActionView::Issue(call) => Event::Reply((self.server)(call)),
            ActionView::Encode(_) => Event::Encoded(self.encoded),
            ActionView::Write { .. } => Event::Written(self.written),
        }
    }

    /// The server says that it is authoritative.
    pub open spec fn is_authoritative(self) -> bool {
        (self.server)(CallView::QueryServer) matches Ok(Reply::Server(server))
            && server.daemon_type == DaemonType::Authoritative
    }

    /// The server says that it is something else than authoritative.
    pub open spec fn is_not_authoritative(self) -> bool {
        (self.server)(CallView::QueryServer) matches Ok(Reply::Server(server))
            && server.daemon_type != DaemonType::Authoritative
    }

    /// The server has the zone.
    pub open spec fn has_zone(self, zone_name: Seq<char>) -> bool {
        (self.server)(CallView::QueryZone { zone_name }) matches Ok(Reply::Zone(_))
    }

    /// The server says that it does not know the zone.
    pub open spec fn lacks_zone(self, zone_name: Seq<char>) -> bool {
        (self.server)(CallView::QueryZone { zone_name }) matches Err(error)
            && error.is_not_found()
    }
}

/// The calls that an action adds to a run.
pub open spec fn calls_of(action: ActionView) -> Seq<CallView> {
    match action {
        ActionView::Issue(call) => seq![call],
        _ => Seq::empty(),
    }
}

/// Plays a workflow from `step` on, for at most `limit` actions.
pub open spec fn play(
    zone_name: Seq<char>,
    command: CommandView,
    step: StepView,
    world: World,
    limit: nat,
) -> Run
    decreases limit,
{
    match step {
        StepView::Finish { outcome } => Run { calls: Seq::empty(), outcome, ended: true },
        StepView::Continue { action, stage } => if limit == 0 {
            Run { calls: Seq::empty(), outcome: Ok(()), ended: false }
        } else {
            let rest = play(
                zone_name,
                command,
                resume(zone_name, command, stage, world.event_of(action)),
                world,
                (limit - 1) as nat,
            );
            Run { calls: calls_of(action) + rest.calls, outcome: rest.outcome, ended: rest.ended }
        },
    }
}

/// Plays the workflow of a command from its first step. No workflow asks for
/// more than four actions.
pub open spec fn run(zone_name: Seq<char>, command: CommandView, world: World) -> Run {
    play(zone_name, command, begin(zone_name, command), world, 4)
}

/// The outcome that a step stands for, where the step ends the workflow.
pub open spec fn outcome_of(step: StepView) -> Result<(), RestClientErrorView> {
    match step {
        StepView::Finish { outcome } => outcome,
        StepView::Continue { .. } => Ok(()),
    }
}

/// How many of the calls create a zone.
pub open spec fn creations(calls: Seq<CallView>) -> nat
    decreases calls.len(),
{
    if calls.len() == 0 {
        0
    } else if calls.last() is CreateZone {
        creations(calls.drop_last()) + 1
    } else {
        creations(calls.drop_last())
    }
}

/// Tells whether a command is one that the command line can give: its
/// parameters are those of its kind, and a record type is one that the tool
/// handles.
pub open spec fn is_proper(command: CommandView) -> bool {
    match command.kind {
        CommandKind::AddZone => command.parameters is AddZone,
        CommandKind::RemoveZone => command.parameters is RemoveZone,
        CommandKind::QueryZone => command.parameters is QueryZone,
        CommandKind::AddEntry => command.parameters
            matches CommandParametersView::AddEntry { record_type, .. }
            && RrsetType::spec_from_name(record_type) is Some,
        CommandKind::RemoveEntry => command.parameters
            matches CommandParametersView::RemoveEntry { record_type, .. }
            && RrsetType::spec_from_name(record_type) is Some,
    }
}

/// Tells whether the workflow of a command waits for the reply to a call
/// when it stands at `stage`.
pub open spec fn awaits_reply(kind: CommandKind, stage: Stage) -> bool {
    match kind {
        CommandKind::AddZone => stage == Stage::ServerRole || stage == Stage::ZoneLookup || stage
            == Stage::ZoneCreation,
        CommandKind::RemoveZone => stage == Stage::ZoneRemoval,
        CommandKind::QueryZone => stage == Stage::ServerRole || stage == Stage::ZoneListing,
        CommandKind::AddEntry | CommandKind::RemoveEntry => stage == Stage::ServerRole || stage
            == Stage::ZoneLookup || stage == Stage::EntryChange,
    }
}

/// The request that sets the records of an entry, as the parameters of the
/// command describe it.
pub open spec fn entry_request(zone_name: Seq<char>, parameters: CommandParametersView)
    -> AddEntryRequestEventView
    recommends
        parameters is AddEntry,
{
    AddEntryRequestEventView {
        zone_name,
        record_key: qualified_key(parameters->AddEntry_record_key, zone_name),
        record_type: RrsetType::spec_from_name(parameters->AddEntry_record_type)->0,
        record_value: parameters->record_value,
        time_to_live: parameters->time_to_live,
    }
}

/// The call that removes the records of an entry, as the parameters of the
/// command describe it.
pub open spec fn entry_removal(zone_name: Seq<char>, parameters: CommandParametersView)
    -> CallView
    recommends
        parameters is RemoveEntry,
{
    CallView::RemoveEntry {
        zone_name,
        record_key: qualified_key(parameters->RemoveEntry_record_key, zone_name),
        record_type: RrsetType::spec_from_name(parameters->RemoveEntry_record_type)->0,
    }
}

/// Every record type that can be given on the command line is one that the
/// tool handles.
pub proof fn accepted_record_type_is_handled(name: Seq<char>)
    requires
        is_record_type(name),
    ensures
        RrsetType::spec_from_name(name) is Some,
{
}

/// The command that the command line gives is a proper one, as long as the
/// record type of an entry is one that can be given on the command line.
pub proof fn command_of_command_line_is_proper(subcommand: ParsedSubcommand)
    requires
        subcommand matches ParsedSubcommand::AddEntry { record_type, .. } ==> is_record_type(
            record_type@,
        ),
        subcommand matches ParsedSubcommand::RemoveEntry { record_type, .. } ==> is_record_type(
            record_type@,
        ),
    ensures
        is_proper(command_of(subcommand)),
{
}

/// Every workflow ends, in every world, after at most four actions.
pub proof fn workflow_ends(zone_name: Seq<char>, command: CommandView, world: World)
    ensures
        run(zone_name, command, world).ended,
{
    reveal_with_fuel(play, 5);
}

/// Adding a zone that the server has: the tool asks the server what it is,
/// asks for the zone, and ends well. Nothing is created.
pub proof fn add_zone_finds_zone(zone_name: Seq<char>, command: CommandView, world: World)
    requires
        command.kind == CommandKind::AddZone,
        is_proper(command),
        world.is_authoritative(),
        world.has_zone(zone_name),
    ensures
        run(zone_name, command, world) == (Run {
            calls: seq![CallView::QueryServer, CallView::QueryZone { zone_name }],
            outcome: Ok(()),
            ended: true,
        }),
{
    reveal_with_fuel(play, 5);
    let made = run(zone_name, command, world);
    assert(made.calls =~= seq![CallView::QueryServer, CallView::QueryZone { zone_name }]);
}

/// Adding a zone that the server does not know: the tool asks the server
/// what it is, asks for the zone and creates it. The outcome of the creation
/// is the outcome of the workflow.
pub proof fn add_zone_creates_zone(zone_name: Seq<char>, command: CommandView, world: World)
    requires
        command.kind == CommandKind::AddZone,
        is_proper(command),
        world.is_authoritative(),
        world.lacks_zone(zone_name),
    ensures
        ({
            let creation = CallView::CreateZone(creation_request(zone_name, command.parameters));
            run(zone_name, command, world) == (Run {
                calls: seq![CallView::QueryServer, CallView::QueryZone { zone_name }, creation],
                outcome: outcome_of(after_zone_made(Event::Reply((world.server)(creation)))),
                ended: true,
            })
        }),
{
    reveal_with_fuel(play, 5);
    let creation = CallView::CreateZone(creation_request(zone_name, command.parameters));
    let made = run(zone_name, command, world);
    assert(made.calls =~= seq![
        CallView::QueryServer,
        CallView::QueryZone { zone_name },
        creation,
    ]);
}

/// Adding a zone twice to a server that has it creates nothing, neither the
/// first time nor the second.
pub proof fn add_zone_twice_creates_nothing(
    zone_name: Seq<char>,
    command: CommandView,
    world: World,
)
    requires
        command.kind == CommandKind::AddZone,
        is_proper(command),
        world.is_authoritative(),
        world.has_zone(zone_name),
    ensures
        creations(
            run(zone_name, command, world).calls + run(zone_name, command, world).calls,
        ) == 0,
{
    add_zone_finds_zone(zone_name, command, world);
    let once = seq![CallView::QueryServer, CallView::QueryZone { zone_name }];
    let both = once + once;
    assert(both.drop_last() =~= once.push(CallView::QueryServer));
    assert(both.drop_last().drop_last() =~= once);
    assert(once.drop_last() =~= seq![CallView::QueryServer]);
    assert(once.drop_last().drop_last() =~= Seq::<CallView>::empty());
    reveal_with_fuel(creations, 5);
}

/// Removing a zone is a single call, whatever the server is. Its outcome is
/// the outcome of the workflow.
pub proof fn remove_zone_is_one_call(zone_name: Seq<char>, command: CommandView, world: World)
    requires
        command.kind == CommandKind::RemoveZone,
        is_proper(command),
    ensures
        ({
            let removal = CallView::RemoveZone { zone_name };
            run(zone_name, command, world) == (Run {
                calls: seq![removal],
                outcome: outcome_of(after_change(Event::Reply((world.server)(removal)))),
                ended: true,
            })
        }),
{
    reveal_with_fuel(play, 5);
    let made = run(zone_name, command, world);
    assert(made.calls =~= seq![CallView::RemoveZone { zone_name }]);
}

/// Querying the zones of an authoritative server: the tool asks the server
/// what it is and asks for the list of zones. No other call is made.
pub proof fn query_zone_lists_zones(zone_name: Seq<char>, command: CommandView, world: World)
    requires
        command.kind == CommandKind::QueryZone,
        is_proper(command),
        world.is_authoritative(),
    ensures
        run(zone_name, command, world).calls == seq![CallView::QueryServer, CallView::ListZones],
{
    reveal_with_fuel(play, 5);
    let made = run(zone_name, command, world);
    assert(made.calls =~= seq![CallView::QueryServer, CallView::ListZones]);
}

/// Adding an entry to a zone that the server has: the tool asks the server
/// what it is, asks for the zone and sets the records under the full name of
/// the key. The outcome of that call is the outcome of the workflow.
pub proof fn add_entry_sets_records(zone_name: Seq<char>, command: CommandView, world: World)
    requires
        command.kind == CommandKind::AddEntry,
        is_proper(command),
        world.is_authoritative(),
        world.has_zone(zone_name),
    ensures
        ({
            let change = CallView::AddEntry(entry_request(zone_name, command.parameters));
            run(zone_name, command, world) == (Run {
                calls: seq![CallView::QueryServer, CallView::QueryZone { zone_name }, change],
                outcome: outcome_of(after_change(Event::Reply((world.server)(change)))),
                ended: true,
            })
        }),
{
    reveal_with_fuel(play, 5);
    let change = CallView::AddEntry(entry_request(zone_name, command.parameters));
    let made = run(zone_name, command, world);
    assert(made.calls =~= seq![CallView::QueryServer, CallView::QueryZone { zone_name }, change]);
}

/// Removing an entry from a zone that the server has: the tool asks the
/// server what it is, asks for the zone and removes the records under the
/// full name of the key. The outcome of that call is the outcome of the
/// workflow.
pub proof fn remove_entry_removes_records(
    zone_name: Seq<char>,
    command: CommandView,
    world: World,
)
    requires
        command.kind == CommandKind::RemoveEntry,
        is_proper(command),
        world.is_authoritative(),
        world.has_zone(zone_name),
    ensures
        ({
            let change = entry_removal(zone_name, command.parameters);
            run(zone_name, command, world) == (Run {
                calls: seq![CallView::QueryServer, CallView::QueryZone { zone_name }, change],
                outcome: outcome_of(after_change(Event::Reply((world.server)(change)))),
                ended: true,
            })
        }),
{
    reveal_with_fuel(play, 5);
    let change = entry_removal(zone_name, command.parameters);
    let made = run(zone_name, command, world);
    assert(made.calls =~= seq![CallView::QueryServer, CallView::QueryZone { zone_name }, change]);
}

/// A server that is not authoritative ends every workflow that begins with
/// the question what the server is: the workflow fails with a failure of the
/// tool's own, and no call about a zone is made. The removal of a zone does
/// not ask that question.
pub proof fn other_server_ends_workflow(zone_name: Seq<char>, command: CommandView, world: World)
    requires
        command.kind != CommandKind::RemoveZone,
        is_proper(command),
        world.is_not_authoritative(),
    ensures
        run(zone_name, command, world) == (Run {
            calls: seq![CallView::QueryServer],
            outcome: Err(RestClientErrorView::UnspecifiedError { message: None }),
            ended: true,
        }),
{
    reveal_with_fuel(play, 5);
    let made = run(zone_name, command, world);
    assert(made.calls =~= seq![CallView::QueryServer]);
}

/// Where the server does not know the zone, there is nothing to add an entry
/// to and nothing to remove one from: the workflow ends well after the
/// question for the zone, and no further call is made.
pub proof fn entry_of_unknown_zone_is_left_alone(
    zone_name: Seq<char>,
    command: CommandView,
    world: World,
)
    requires
        command.kind == CommandKind::AddEntry || command.kind == CommandKind::RemoveEntry,
        is_proper(command),
        world.is_authoritative(),
        world.lacks_zone(zone_name),
    ensures
        run(zone_name, command, world) == (Run {
            calls: seq![CallView::QueryServer, CallView::QueryZone { zone_name }],
            outcome: Ok(()),
            ended: true,
        }),
{
    reveal_with_fuel(play, 5);
    let made = run(zone_name, command, world);
    assert(made.calls =~= seq![CallView::QueryServer, CallView::QueryZone { zone_name }]);
}

/// A call that fails ends the workflow at once, with the failure as it is:
/// the next step is the end, so no further call is made. The one failure
/// that a workflow goes on from is a zone that the server does not know,
/// when the workflow has asked for the zone.
pub proof fn failed_call_ends_workflow(
    zone_name: Seq<char>,
    command: CommandView,
    stage: Stage,
    error: RestClientError,
)
    requires
        is_proper(command),
        awaits_reply(command.kind, stage),
        !(stage == Stage::ZoneLookup && error.is_not_found()),
    ensures
        resume(zone_name, command, stage, Event::Reply(Err(error))) == failure(error),
        resume(zone_name, command, stage, Event::Reply(Err(error))) == (StepView::Finish {
            outcome: Err(error@),
        }),
{
}

} // verus!
