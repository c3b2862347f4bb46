use pdns_cli::app_config::cmd_line_parser::{Command, CommandKind, CommandParameters};
use pdns_cli::commands::add_entry_command::AddEntryCommand;
use pdns_cli::commands::add_zone_command::AddZoneCommand;
use pdns_cli::commands::command_handler::CommandHandler;
use pdns_cli::commands::list_zones_command::ListZonesCommand;
use pdns_cli::commands::query_zone_command::QueryZoneCommand;
use pdns_cli::commands::remove_entry_command::RemoveEntryCommand;
use pdns_cli::commands::remove_zone_command::RemoveZoneCommand;
use pdns_cli::commands::workflow::{
    Action, Call, Event, PayloadKind, Reply, Stage, WorkflowStep,
};
use pdns_cli::pdns::error::Error;
use pdns_cli::pdns::server::{DaemonType, Server};
use pdns_cli::pdns::struct_type::StructType;
use pdns_cli::pdns::zone::{ListZone, RrsetType, Zone, ZoneKind};
use pdns_cli::rest_client::client_request_builder::HttpVerb;
use pdns_cli::rest_client::errors::{RestClientError, RestClientErrorKind};
use pdns_cli::rest_client::pdns_resource_client::RequestBody;
use pdns_cli::rest_client::server_resource_client::QueryServerRequestEvent;
use pdns_cli::rest_client::zone_resource_client::{
    AddEntryRequestEvent, CreateZoneRequestEvent, ListZonesRequestEvent, QueryZoneRequestEvent,
    RemoveEntryRequestEvent, RemoveZoneRequestEvent,
};

/// A server that lives in memory. It knows its role and its zones, can be
/// told to fail the call of a given position, and remembers every call.
struct SimulatedServer {
    daemon_type: DaemonType,
    zones: Vec<String>,
    failing: Option<(usize, RestClientError)>,
    calls: Vec<Call>,
}

fn not_found() -> RestClientError {
    RestClientError::on_powerdns_server_error(404, Error::new("Not Found".to_string(), None))
}

fn internal_error() -> RestClientError {
    RestClientError::on_powerdns_server_error(
        500,
        Error::new("internal".to_string(), Some(vec!["db down".to_string()])),
    )
}

fn zone(name: &str) -> Zone {
    Zone {
        id: name.to_string(),
        name: name.to_string(),
        type_id: StructType::Zone,
        url: format!("/api/v1/servers/localhost/zones/{}", name),
        kind: ZoneKind::Native,
        rrsets: vec![],
        serial: 2024013101,
        edited_serial: 2024013101,
        masters: vec![],
        dnssec: false,
        nsec3param: "".to_string(),
        nsec3narrow: false,
        presigned: false,
        soa_edit: "".to_string(),
        soa_edit_api: "".to_string(),
        api_rectify: false,
        zone: None,
        account: None,
        nameservers: vec![],
        master_tsig_key_ids: "".to_string(),
        slave_tsig_key_ids: "".to_string(),
    }
}

fn list_zone(name: &str) -> ListZone {
    ListZone {
        id: name.to_string(),
        name: name.to_string(),
        type_id: StructType::Zone,
        url: format!("/api/v1/servers/localhost/zones/{}", name),
        kind: ZoneKind::Native,
        serial: 1,
        edited_serial: 1,
        masters: vec![],
        dnssec: false,
        account: None,
    }
}

impl SimulatedServer {
    fn new(daemon_type: DaemonType, zones: Vec<&str>) -> SimulatedServer {
        SimulatedServer {
            daemon_type,
            zones: zones.iter().map(|name| name.to_string()).collect(),
            failing: None,
            calls: vec![],
        }
    }

    fn authoritative(zones: Vec<&str>) -> SimulatedServer {
        SimulatedServer::new(DaemonType::Authoritative, zones)
    }

    fn failing_at(mut self, position: usize, error: RestClientError) -> SimulatedServer {
        self.failing = Some((position, error));
        self
    }

    fn answer(&mut self, call: Call) -> Result<Reply, RestClientError> {
        let position = self.calls.len();
        self.calls.push(call.clone());
        if let Some((failing, error)) = &self.failing {
            if *failing == position {
                return Err(error.clone());
            }
        }
        match call {
            Call::QueryServer(_) => Ok(Reply::Server(Server {
                type_id: StructType::Server,
                id: "localhost".to_string(),
                daemon_type: self.daemon_type,
                version: "4.5.0".to_string(),
                url: "/api/v1/servers/localhost".to_string(),
                config_url: "/api/v1/servers/localhost/config{/config_setting}".to_string(),
                zones_url: "/api/v1/servers/localhost/zones{/zone}".to_string(),
            })),
            Call::QueryZone(request) => {
                if self.zones.contains(&request.zone_name) {
                    Ok(Reply::Zone(zone(&request.zone_name)))
                } else {
                    Err(not_found())
                }
            }
            Call::ListZones(_) => Ok(Reply::Zones(
                self.zones.iter().map(|name| list_zone(name)).collect(),
            )),
            Call::CreateZone(request) => {
                self.zones.push(request.zone_name.clone());
                Ok(Reply::Zone(zone(&request.zone_name)))
            }
            Call::RemoveZone(request) => {
                if self.zones.contains(&request.zone_name) {
                    self.zones.retain(|name| *name != request.zone_name);
                    Ok(Reply::Done)
                } else {
                    Err(not_found())
                }
            }
            Call::AddEntry(_) | Call::RemoveEntry(_) => Ok(Reply::Done),
        }
    }
}

/// What was written, and where.
struct Output {
    encoding_fails: bool,
    writing_fails: Option<String>,
    written: Vec<(String, Option<String>)>,
}

impl Output {
    fn new() -> Output {
        Output {
            encoding_fails: false,
            writing_fails: None,
            written: vec![],
        }
    }
}

fn drive(
    handler: &CommandHandler,
    command: &Command,
    server: &mut SimulatedServer,
    output: &mut Output,
) -> Result<(), RestClientError> {
    let mut step = handler.execute_command(command);
    let mut actions = 0;
    loop {
        match step {
            WorkflowStep::Finish { outcome } => return outcome,
            WorkflowStep::Continue { action, stage } => {
                actions += 1;
                assert!(actions <= 4, "a workflow asks for at most four actions");
                let event = match action {
                    Action::Issue(call) => Event::Reply(server.answer(call)),
                    Action::Encode(zones) => {
                        if output.encoding_fails {
                            Event::Encoded(None)
                        } else {
                            let names: Vec<String> =
                                zones.iter().map(|zone| zone.name.clone()).collect();
                            Event::Encoded(Some(names.join("\n")))
                        }
                    }
                    Action::Write { text, output_file } => match &output.writing_fails {
                        Some(complaint) => Event::Written(Err(complaint.clone())),
                        None => {
                            output.written.push((text, output_file));
                            Event::Written(Ok(()))
                        }
                    },
                };
                step = handler.resume(command, stage, event);
            }
        }
    }
}

fn handler() -> CommandHandler {
    CommandHandler::new(
        &"http://localhost:8081/".to_string(),
        &"key".to_string(),
        &"example.com".to_string(),
    )
}

fn add_zone() -> Command {
    Command::new(
        CommandKind::AddZone,
        CommandParameters::AddZone {
            refresh: 3600,
            retry: 1800,
            expire: 604800,
            neg_caching: 600,
            masters: vec![],
            nameservers: vec!["ns1.example.com".to_string()],
            account: "root".to_string(),
        },
    )
}

fn remove_zone() -> Command {
    Command::new(CommandKind::RemoveZone, CommandParameters::RemoveZone {})
}

fn query_zone(output_file: Option<&str>) -> Command {
    Command::new(
        CommandKind::QueryZone,
        CommandParameters::QueryZone {
            output_file: output_file.map(|name| name.to_string()),
        },
    )
}

fn add_entry(key: &str) -> Command {
    Command::new(
        CommandKind::AddEntry,
        CommandParameters::AddEntry {
            record_key: key.to_string(),
            record_value: vec!["10.0.0.1".to_string()],
            record_type: "A".to_string(),
            time_to_live: 300,
        },
    )
}

fn remove_entry(key: &str) -> Command {
    Command::new(
        CommandKind::RemoveEntry,
        CommandParameters::RemoveEntry {
            record_key: key.to_string(),
            record_type: "A".to_string(),
        },
    )
}

fn query_server() -> Call {
    Call::QueryServer(QueryServerRequestEvent::new())
}

fn query_zone_call() -> Call {
    Call::QueryZone(QueryZoneRequestEvent::new(&"example.com".to_string()))
}

fn create_zone_call() -> Call {
    Call::CreateZone(CreateZoneRequestEvent::new(
        &"example.com".to_string(),
        3600,
        1800,
        604800,
        600,
        &vec![],
        &vec!["ns1.example.com".to_string()],
        &"root".to_string(),
    ))
}

fn add_entry_call() -> Call {
    Call::AddEntry(AddEntryRequestEvent::new(
        &"example.com".to_string(),
        &"www.example.com.".to_string(),
        RrsetType::A,
        &vec!["10.0.0.1".to_string()],
        300,
    ))
}

fn remove_entry_call() -> Call {
    Call::RemoveEntry(RemoveEntryRequestEvent::new(
        &"example.com".to_string(),
        &"www.example.com.".to_string(),
        RrsetType::A,
    ))
}

#[test]
fn add_zone_leaves_an_existing_zone_alone() {
    let mut server = SimulatedServer::authoritative(vec!["example.com"]);

    let outcome = drive(&handler(), &add_zone(), &mut server, &mut Output::new());

    assert_eq!(outcome, Ok(()));
    assert_eq!(server.calls, vec![query_server(), query_zone_call()]);
}

#[test]
fn add_zone_creates_a_missing_zone() {
    let mut server = SimulatedServer::authoritative(vec![]);

    let outcome = drive(&handler(), &add_zone(), &mut server, &mut Output::new());

    assert_eq!(outcome, Ok(()));
    assert_eq!(
        server.calls,
        vec![query_server(), query_zone_call(), create_zone_call()]
    );
    assert_eq!(server.zones, vec!["example.com".to_string()]);
}

#[test]
fn add_zone_twice_creates_once_at_most() {
    let mut server = SimulatedServer::authoritative(vec!["example.com"]);
    drive(&handler(), &add_zone(), &mut server, &mut Output::new()).unwrap();
    drive(&handler(), &add_zone(), &mut server, &mut Output::new()).unwrap();
    let creations = server
        .calls
        .iter()
        .filter(|call| matches!(call, Call::CreateZone(_)))
        .count();
    assert_eq!(creations, 0);
    assert_eq!(server.calls.len(), 4);

    let mut server = SimulatedServer::authoritative(vec![]);
    drive(&handler(), &add_zone(), &mut server, &mut Output::new()).unwrap();
    drive(&handler(), &add_zone(), &mut server, &mut Output::new()).unwrap();
    let creations = server
        .calls
        .iter()
        .filter(|call| matches!(call, Call::CreateZone(_)))
        .count();
    assert_eq!(creations, 1);
    assert_eq!(
        server.calls,
        vec![
            query_server(),
            query_zone_call(),
            create_zone_call(),
            query_server(),
            query_zone_call()
        ]
    );
}

#[test]
fn remove_zone_is_a_single_call() {
    let mut server = SimulatedServer::authoritative(vec!["example.com"]);

    let outcome = drive(&handler(), &remove_zone(), &mut server, &mut Output::new());

    assert_eq!(outcome, Ok(()));
    assert_eq!(
        server.calls,
        vec![Call::RemoveZone(RemoveZoneRequestEvent::new(
            &"example.com".to_string()
        ))]
    );
    assert_eq!(server.zones, Vec::<String>::new());
}

#[test]
fn remove_zone_surfaces_the_result_of_its_call() {
    let mut server = SimulatedServer::new(DaemonType::Recursor, vec![]);

    let outcome = drive(&handler(), &remove_zone(), &mut server, &mut Output::new());

    assert_eq!(outcome, Err(not_found()));
    assert_eq!(server.calls.len(), 1);
}

#[test]
fn query_zone_writes_the_list_to_the_file() {
    let mut server = SimulatedServer::authoritative(vec!["a.example", "b.example"]);
    let mut output = Output::new();

    let outcome = drive(
        &handler(),
        &query_zone(Some("zones.json")),
        &mut server,
        &mut output,
    );

    assert_eq!(outcome, Ok(()));
    assert_eq!(
        server.calls,
        vec![query_server(), Call::ListZones(ListZonesRequestEvent::new())]
    );
    assert_eq!(
        output.written,
        vec![(
            "a.example\nb.example".to_string(),
            Some("zones.json".to_string())
        )]
    );
}

#[test]
fn query_zone_writes_to_standard_output_without_file() {
    let mut server = SimulatedServer::authoritative(vec!["a.example"]);
    let mut output = Output::new();

    let outcome = drive(&handler(), &query_zone(None), &mut server, &mut output);

    assert_eq!(outcome, Ok(()));
    assert_eq!(output.written, vec![("a.example".to_string(), None)]);
}

#[test]
fn query_zone_reports_what_goes_wrong_with_the_output() {
    let mut server = SimulatedServer::authoritative(vec!["a.example"]);
    let mut output = Output::new();
    output.encoding_fails = true;
    assert_eq!(
        drive(&handler(), &query_zone(None), &mut server, &mut output),
        Err(RestClientError::on_unspecified_error())
    );
    assert_eq!(output.written, vec![]);

    let mut server = SimulatedServer::authoritative(vec!["a.example"]);
    let mut output = Output::new();
    output.writing_fails = Some("disk full".to_string());
    assert_eq!(
        drive(&handler(), &query_zone(None), &mut server, &mut output),
        Err(RestClientError::on_unspecified_error_message(
            &"disk full".to_string()
        ))
    );
}

#[test]
fn add_entry_sets_the_records_under_the_full_name() {
    for key in ["www", "www.example.com", "www.example.com."] {
        let mut server = SimulatedServer::authoritative(vec!["example.com"]);

        let outcome = drive(&handler(), &add_entry(key), &mut server, &mut Output::new());

        assert_eq!(outcome, Ok(()));
        assert_eq!(
            server.calls,
            vec![query_server(), query_zone_call(), add_entry_call()]
        );
    }
}

#[test]
fn remove_entry_removes_the_records_under_the_full_name() {
    for key in ["www", "www.example.com"] {
        let mut server = SimulatedServer::authoritative(vec!["example.com"]);

        let outcome = drive(
            &handler(),
            &remove_entry(key),
            &mut server,
            &mut Output::new(),
        );

        assert_eq!(outcome, Ok(()));
        assert_eq!(
            server.calls,
            vec![query_server(), query_zone_call(), remove_entry_call()]
        );
    }
}

#[test]
fn recursor_ends_the_workflow_before_any_call_about_a_zone() {
    for command in [
        add_zone(),
        add_entry("www"),
        remove_entry("www"),
        query_zone(None),
    ] {
        let mut server = SimulatedServer::new(DaemonType::Recursor, vec!["example.com"]);
        let mut output = Output::new();

        let outcome = drive(&handler(), &command, &mut server, &mut output);

        assert_eq!(outcome, Err(RestClientError::on_unspecified_error()));
        assert_eq!(
            outcome.unwrap_err().kind(),
            RestClientErrorKind::UnspecifiedError { message: None }
        );
        assert_eq!(server.calls, vec![query_server()]);
        assert_eq!(output.written, vec![]);
    }
}

#[test]
fn unknown_zone_is_created_by_add_zone_and_left_alone_by_entries() {
    let mut server = SimulatedServer::authoritative(vec!["other.example"])
        .failing_at(
            1,
            RestClientError::on_powerdns_server_error(
                404,
                Error::new("Not Found".to_string(), None),
            ),
        );
    assert_eq!(
        drive(&handler(), &add_zone(), &mut server, &mut Output::new()),
        Ok(())
    );
    assert_eq!(
        server.calls,
        vec![query_server(), query_zone_call(), create_zone_call()]
    );

    for command in [add_entry("www"), remove_entry("www")] {
        let mut server = SimulatedServer::authoritative(vec!["other.example"]);
        assert_eq!(
            drive(&handler(), &command, &mut server, &mut Output::new()),
            Ok(())
        );
        assert_eq!(server.calls, vec![query_server(), query_zone_call()]);
    }
}

#[test]
fn internal_error_ends_the_workflow_at_once() {
    let cases: Vec<(Command, usize)> = vec![
        (add_zone(), 0),
        (add_zone(), 1),
        (add_zone(), 2),
        (remove_zone(), 0),
        (query_zone(None), 0),
        (query_zone(None), 1),
        (add_entry("www"), 0),
        (add_entry("www"), 1),
        (add_entry("www"), 2),
        (remove_entry("www"), 0),
        (remove_entry("www"), 1),
        (remove_entry("www"), 2),
    ];
    for (command, position) in cases {
        let zones = if command.kind() == CommandKind::AddZone {
            vec![]
        } else {
            vec!["example.com"]
        };
        let mut server =
            SimulatedServer::authoritative(zones).failing_at(position, internal_error());
        let mut output = Output::new();

        let outcome = drive(&handler(), &command, &mut server, &mut output);

        assert_eq!(
            outcome,
            Err(RestClientError::on_powerdns_server_error(
                500,
                Error::new("internal".to_string(), Some(vec!["db down".to_string()]))
            ))
        );
        assert_eq!(server.calls.len(), position + 1);
        assert_eq!(output.written, vec![]);
    }
}

#[test]
fn not_found_is_a_failure_where_no_zone_was_asked_for() {
    let mut server = SimulatedServer::authoritative(vec!["example.com"]).failing_at(0, not_found());
    assert_eq!(
        drive(&handler(), &add_zone(), &mut server, &mut Output::new()),
        Err(not_found())
    );
    assert_eq!(server.calls, vec![query_server()]);

    let mut server = SimulatedServer::authoritative(vec!["example.com"]).failing_at(2, not_found());
    assert_eq!(
        drive(&handler(), &add_entry("www"), &mut server, &mut Output::new()),
        Err(not_found())
    );
    assert_eq!(server.calls.len(), 3);
}

#[test]
fn other_failures_of_the_zone_query_are_surfaced() {
    for error in [
        RestClientError::on_client_error(404),
        RestClientError::on_client_error(503),
        RestClientError::on_reqwest_runtime_error("connection reset".to_string()),
        RestClientError::on_tokio_runtime_error("channel closed".to_string()),
        RestClientError::on_powerdns_server_error(422, Error::new("bad".to_string(), None)),
    ] {
        for command in [add_zone(), add_entry("www"), remove_entry("www")] {
            let mut server =
                SimulatedServer::authoritative(vec!["example.com"]).failing_at(1, error.clone());
            assert_eq!(
                drive(&handler(), &command, &mut server, &mut Output::new()),
                Err(error.clone())
            );
            assert_eq!(server.calls, vec![query_server(), query_zone_call()]);
        }
    }
}

#[test]
fn parameters_of_another_command_end_the_workflow_without_a_call() {
    let mismatched = vec![
        (CommandKind::AddZone, CommandParameters::RemoveZone {}, None),
        (
            CommandKind::RemoveZone,
            CommandParameters::QueryZone { output_file: None },
            None,
        ),
        (CommandKind::QueryZone, CommandParameters::RemoveZone {}, None),
        (CommandKind::AddEntry, CommandParameters::RemoveZone {}, None),
        (
            CommandKind::RemoveEntry,
            CommandParameters::RemoveZone {},
            Some("command parameter mismatch".to_string()),
        ),
    ];
    for (kind, parameters, message) in mismatched {
        let mut server = SimulatedServer::authoritative(vec!["example.com"]);
        let outcome = drive(
            &handler(),
            &Command::new(kind, parameters),
            &mut server,
            &mut Output::new(),
        );
        assert_eq!(
            outcome.unwrap_err().kind(),
            RestClientErrorKind::UnspecifiedError { message }
        );
        assert_eq!(server.calls, vec![]);
    }
}

#[test]
fn record_type_that_the_tool_does_not_handle_ends_the_workflow_without_a_call() {
    let commands = vec![
        Command::new(
            CommandKind::AddEntry,
            CommandParameters::AddEntry {
                record_key: "www".to_string(),
                record_value: vec!["x".to_string()],
                record_type: "MX".to_string(),
                time_to_live: 300,
            },
        ),
        Command::new(
            CommandKind::RemoveEntry,
            CommandParameters::RemoveEntry {
                record_key: "www".to_string(),
                record_type: "MX".to_string(),
            },
        ),
    ];
    for command in commands {
        let mut server = SimulatedServer::authoritative(vec!["example.com"]);
        let outcome = drive(&handler(), &command, &mut server, &mut Output::new());
        assert_eq!(
            outcome,
            Err(RestClientError::on_unspecified_error_message(
                &"Unsupported record type: MX".to_string()
            ))
        );
        assert_eq!(server.calls, vec![]);
    }
}

#[test]
fn event_that_does_not_answer_the_call_ends_the_workflow() {
    let handler = handler();
    let strays = vec![
        (add_zone(), Stage::ServerRole, Event::Reply(Ok(Reply::Done))),
        (add_zone(), Stage::ZoneLookup, Event::Encoded(None)),
        (add_zone(), Stage::ZoneCreation, Event::Reply(Ok(Reply::Done))),
        (add_zone(), Stage::Writing, Event::Written(Ok(()))),
        (remove_zone(), Stage::ZoneRemoval, Event::Written(Ok(()))),
        (remove_zone(), Stage::ServerRole, Event::Reply(Ok(Reply::Done))),
        (query_zone(None), Stage::ZoneListing, Event::Reply(Ok(Reply::Done))),
        (query_zone(None), Stage::Encoding, Event::Written(Ok(()))),
        (query_zone(None), Stage::Writing, Event::Encoded(Some("x".to_string()))),
        (add_entry("www"), Stage::EntryChange, Event::Reply(Ok(Reply::Zones(vec![])))),
        (remove_entry("www"), Stage::ZoneLookup, Event::Reply(Ok(Reply::Done))),
    ];
    for (command, stage, event) in strays {
        match handler.resume(&command, stage, event) {
            WorkflowStep::Finish { outcome } => {
                assert_eq!(outcome, Err(RestClientError::on_unspecified_error()))
            }
            other => panic!("the workflow went on: {:?}", other),
        }
    }
}

#[test]
fn each_command_steps_like_the_handler() {
    let base = "http://localhost:8081/".to_string();
    let key = "key".to_string();
    let zone_name = "example.com".to_string();
    let first = |step: WorkflowStep| match step {
        WorkflowStep::Continue {
            action: Action::Issue(call),
            stage,
        } => (call, stage),
        other => panic!("unexpected step {:?}", other),
    };

    let command = add_zone();
    assert_eq!(
        first(AddZoneCommand::new(&base, &key, &zone_name).execute_command(&command.parameters())),
        (query_server(), Stage::ServerRole)
    );
    let command = remove_zone();
    assert_eq!(
        first(
            RemoveZoneCommand::new(&base, &key, &zone_name).execute_command(&command.parameters())
        ),
        (
            Call::RemoveZone(RemoveZoneRequestEvent::new(&zone_name)),
            Stage::ZoneRemoval
        )
    );
    let command = query_zone(None);
    assert_eq!(
        first(
            QueryZoneCommand::new(&base, &key, &zone_name).execute_command(&command.parameters())
        ),
        (query_server(), Stage::ServerRole)
    );
    assert_eq!(
        first(
            ListZonesCommand::new(&base, &key, &zone_name).execute_command(&command.parameters())
        ),
        (query_server(), Stage::ServerRole)
    );
    let listing = ListZonesCommand::new(&base, &key, &zone_name);
    match listing.resume(
        &command.parameters(),
        Stage::ZoneListing,
        Event::Reply(Ok(Reply::Zones(vec![list_zone("a.example")]))),
    ) {
        WorkflowStep::Continue {
            action: Action::Encode(zones),
            stage: Stage::Encoding,
        } => assert_eq!(zones[0].name, "a.example"),
        other => panic!("unexpected step {:?}", other),
    }
    let command = add_entry("www");
    let adding = AddEntryCommand::new(&base, &key, &zone_name);
    assert_eq!(
        first(adding.execute_command(&command.parameters())),
        (query_server(), Stage::ServerRole)
    );
    assert_eq!(
        first(adding.resume(
            &command.parameters(),
            Stage::ZoneLookup,
            Event::Reply(Ok(Reply::Zone(zone("example.com"))))
        )),
        (add_entry_call(), Stage::EntryChange)
    );
    let command = remove_entry("www");
    let removing = RemoveEntryCommand::new(&base, &key, &zone_name);
    assert_eq!(
        first(removing.execute_command(&command.parameters())),
        (query_server(), Stage::ServerRole)
    );
    assert_eq!(
        first(removing.resume(
            &command.parameters(),
            Stage::ZoneLookup,
            Event::Reply(Ok(Reply::Zone(zone("example.com"))))
        )),
        (remove_entry_call(), Stage::EntryChange)
    );
}

#[test]
fn handler_begins_the_exchange_of_each_call() {
    let handler = handler();
    let cases = vec![
        (query_server(), HttpVerb::Get, "servers/localhost"),
        (
            query_zone_call(),
            HttpVerb::Get,
            "servers/localhost/zones/example.com",
        ),
        (
            Call::ListZones(ListZonesRequestEvent::new()),
            HttpVerb::Get,
            "servers/localhost/zones",
        ),
        (create_zone_call(), HttpVerb::Post, "servers/localhost/zones"),
        (
            Call::RemoveZone(RemoveZoneRequestEvent::new(&"example.com".to_string())),
            HttpVerb::Delete,
            "servers/localhost/zones/example.com",
        ),
        (
            add_entry_call(),
            HttpVerb::Patch,
            "servers/localhost/zones/example.com",
        ),
        (
            remove_entry_call(),
            HttpVerb::Patch,
            "servers/localhost/zones/example.com",
        ),
    ];
    for (call, verb, path) in cases {
        for operation in [
            handler.begin_call(&call).unwrap(),
            handler.begin_call_on(&call, "20240131"),
        ] {
            assert_eq!(operation.request.verb, verb);
            assert_eq!(
                operation.request.uri,
                format!("http://localhost:8081/api/v1/{}", path)
            );
            assert_eq!(operation.request.headers[0].value, "key");
            match (&call, &operation.body) {
                (Call::CreateZone(_), RequestBody::NewZone(zone)) => {
                    assert_eq!(zone.name, "example.com.")
                }
                (Call::AddEntry(_), RequestBody::Rrsets(body))
                | (Call::RemoveEntry(_), RequestBody::Rrsets(body)) => {
                    assert_eq!(body.rrsets[0].name, "www.example.com.")
                }
                (Call::CreateZone(_), _) | (Call::AddEntry(_), _) | (Call::RemoveEntry(_), _) => {
                    panic!("the body is missing")
                }
                (_, RequestBody::Empty) => {}
                (_, other) => panic!("unexpected body {:?}", other),
            }
        }
    }
    match handler.begin_call_on(&create_zone_call(), "20240131").body {
        RequestBody::NewZone(zone) => assert_eq!(
            zone.rrsets[0].records[0].content,
            "example.com. root.example.com. 2024013101 3600 1800 604800 600"
        ),
        other => panic!("unexpected body {:?}", other),
    }
}

#[test]
fn each_call_brings_back_its_kind_of_payload() {
    assert_eq!(query_server().payload(), PayloadKind::Server);
    assert_eq!(query_zone_call().payload(), PayloadKind::Zone);
    assert_eq!(create_zone_call().payload(), PayloadKind::Zone);
    assert_eq!(
        Call::ListZones(ListZonesRequestEvent::new()).payload(),
        PayloadKind::Zones
    );
    assert_eq!(
        Call::RemoveZone(RemoveZoneRequestEvent::new(&"example.com".to_string())).payload(),
        PayloadKind::Nothing
    );
    assert_eq!(add_entry_call().payload(), PayloadKind::Nothing);
    assert_eq!(remove_entry_call().payload(), PayloadKind::Nothing);
}
