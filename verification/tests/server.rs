use pdns_cli::pdns::server::{DaemonType, Server};
use pdns_cli::pdns::struct_type::StructType;
use pdns_cli::rest_client::errors::RestClientError;
use pdns_cli::rest_client::server_resource_client::GetServerResponseEvent;

fn text(value: &serde_json::Value, field: &str) -> String {
    value[field].as_str().unwrap().to_string()
}

fn server_of(source: &str) -> Server {
    let value: serde_json::Value = serde_json::from_str(source).unwrap();
    Server {
        type_id: match value["type"].as_str().unwrap() {
            "Server" => StructType::Server,
            "Zone" => StructType::Zone,
            other => panic!("unknown type {}", other),
        },
        id: text(&value, "id"),
        daemon_type: match value["daemon_type"].as_str().unwrap() {
            "recursor" => DaemonType::Recursor,
            "authoritative" => DaemonType::Authoritative,
            other => panic!("unknown daemon type {}", other),
        },
        version: text(&value, "version"),
        url: text(&value, "url"),
        config_url: text(&value, "config_url"),
        zones_url: text(&value, "zones_url"),
    }
}

#[test]
fn should_deserialize_server_recursor() {
    let src = r#"
        {
            "type": "Server",
            "id": "localhost",
            "daemon_type": "recursor",
            "version": "1.0.0",
            "url": "http://localhost/",
            "config_url": "http://localhost/config",
            "zones_url": "http://localhost/zones"
        }
        "#;

    let server: Server = server_of(src);

    assert_eq!(server.type_id(), StructType::Server);
    assert_eq!(server.id(), "localhost".to_string());
    assert_eq!(server.daemon_type(), DaemonType::Recursor);
    assert_eq!(server.version(), "1.0.0");
    assert_eq!(server.url(), "http://localhost/".to_string());
    assert_eq!(server.config_url(), "http://localhost/config".to_string());
    assert_eq!(server.zones_url(), "http://localhost/zones".to_string());
}

#[test]
fn should_deserialize_server_authoritative() {
    let src = r#"
        {
            "type": "Server",
            "id": "localhost",
            "daemon_type": "authoritative",
            "version": "1.0.0",
            "url": "http://localhost/",
            "config_url": "http://localhost/config",
            "zones_url": "http://localhost/zones"
        }
        "#;

    let server: Server = server_of(src);

    assert_eq!(server.type_id(), StructType::Server);
    assert_eq!(server.id(), "localhost".to_string());
    assert_eq!(server.daemon_type(), DaemonType::Authoritative);
    assert_eq!(server.version(), "1.0.0");
    assert_eq!(server.url(), "http://localhost/".to_string());
    assert_eq!(server.config_url(), "http://localhost/config".to_string());
    assert_eq!(server.zones_url(), "http://localhost/zones".to_string());
}

#[test]
fn server_describes_itself() {
    let server = Server {
        type_id: StructType::Server,
        id: "localhost".to_string(),
        daemon_type: DaemonType::Authoritative,
        version: "4.5.0".to_string(),
        url: "/api/v1/servers/localhost".to_string(),
        config_url: "/config".to_string(),
        zones_url: "/zones".to_string(),
    };

    assert_eq!(
        server.description(),
        "(type=SERVER, id=localhost daemon_type=AUTHORATIVE version=4.5.0 url=/api/v1/servers/localhost confiig_url=/config zones_url=/zones)"
    );
    assert_eq!(DaemonType::Recursor.description(), "RECURSOR");
    assert_eq!(StructType::Zone.description(), "ZONE");
    assert_eq!(StructType::Unset.description(), "(pseudo)NONE");
}

#[test]
fn response_event_hands_out_copies() {
    let server = Server {
        type_id: StructType::Server,
        id: "localhost".to_string(),
        daemon_type: DaemonType::Recursor,
        version: "1".to_string(),
        url: "u".to_string(),
        config_url: "c".to_string(),
        zones_url: "z".to_string(),
    };
    let event = GetServerResponseEvent::new(Ok(server));
    let copy = event.result().unwrap();
    assert_eq!(copy.id(), "localhost");
    assert_eq!(copy.daemon_type(), DaemonType::Recursor);
    assert_eq!(event.result().unwrap().zones_url(), "z");

    let failed = GetServerResponseEvent::new(Err(RestClientError::on_client_error(503)));
    assert_eq!(
        failed.result().unwrap_err(),
        RestClientError::on_client_error(503)
    );
}
