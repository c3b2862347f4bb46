use pdns_cli::pdns::error::Error;
use pdns_cli::pdns::zone::{RrsetType, Rrsets};
use pdns_cli::rest_client::client_request_builder::{
    ClientRequestBuilder, HttpHeader, HttpRequest, HttpVerb,
};
use pdns_cli::rest_client::errors::{RestClientError, RestClientErrorKind};
use pdns_cli::rest_client::pdns_resource_client::{
    is_known_error, is_success, Disposition, PnsServerResponse, PowerDnsRestClient, RequestBody,
};
use pdns_cli::rest_client::server_resource_client::{
    query_server_request_path, QueryServerRequestEvent, ServerResourceClient,
};
use pdns_cli::rest_client::zone_resource_client::{
    remove_entry_body_provider, CreateZoneRequestEvent, QueryZoneRequestEvent,
    RemoveEntryRequestEvent, ZoneResourceClient,
};

fn header(name: &str, value: &str) -> HttpHeader {
    HttpHeader {
        name: name.to_string(),
        value: value.to_string(),
    }
}

fn builder() -> ClientRequestBuilder {
    ClientRequestBuilder::new(&"http://localhost:8081/".to_string(), &"key".to_string())
}

#[test]
fn read_requests_carry_three_headers() {
    for (request, verb) in [
        (builder().get_for_path("api/v1/servers"), HttpVerb::Get),
        (builder().delete_for_path("api/v1/servers"), HttpVerb::Delete),
        (builder().build(HttpVerb::Get, "api/v1/servers"), HttpVerb::Get),
    ] {
        assert_eq!(
            request,
            HttpRequest {
                verb,
                uri: "http://localhost:8081/api/v1/servers".to_string(),
                headers: vec![
                    header("x-api-key", "key"),
                    header("accept", "application/json"),
                    header("cache-control", "no-cache"),
                ],
            }
        );
    }
}

#[test]
fn write_requests_name_the_format_of_their_body() {
    for (request, verb) in [
        (builder().post_for_path("zones"), HttpVerb::Post),
        (builder().patch_for_path("zones"), HttpVerb::Patch),
    ] {
        assert_eq!(
            request,
            HttpRequest {
                verb,
                uri: "http://localhost:8081/zones".to_string(),
                headers: vec![
                    header("x-api-key", "key"),
                    header("accept", "application/json"),
                    header("content-type", "application/json"),
                    header("cache-control", "no-cache"),
                ],
            }
        );
    }
}

#[test]
fn base_and_path_are_joined_as_they_are() {
    let builder = ClientRequestBuilder::new(&"http://host/".to_string(), &"k".to_string());
    assert_eq!(builder.get_for_path("/x").uri, "http://host//x");
    let builder = ClientRequestBuilder::new(&"http://host".to_string(), &"k".to_string());
    assert_eq!(builder.get_for_path("x").uri, "http://hostx");
    assert_eq!(builder.get_for_path("").uri, "http://host");
}

#[test]
fn engine_puts_every_resource_under_the_api_root() {
    let client = PowerDnsRestClient::new(builder());

    let operation = client.handle_get_request("servers/localhost");
    assert_eq!(
        operation.request.uri,
        "http://localhost:8081/api/v1/servers/localhost"
    );
    assert_eq!(operation.request.verb, HttpVerb::Get);
    assert!(matches!(operation.body, RequestBody::Empty));

    let operation = client.handle_delete_request("servers/localhost/zones/a.");
    assert_eq!(
        operation.request.uri,
        "http://localhost:8081/api/v1/servers/localhost/zones/a."
    );
    assert_eq!(operation.request.verb, HttpVerb::Delete);
    assert_eq!(operation.request.headers.len(), 3);

    let body = remove_entry_body_provider(&RemoveEntryRequestEvent::new(
        &"a".to_string(),
        &"www.a".to_string(),
        RrsetType::A,
    ));
    let operation = client.handle_patch_request("zones/a", RequestBody::Rrsets(body.clone()));
    assert_eq!(operation.request.verb, HttpVerb::Patch);
    assert_eq!(operation.request.uri, "http://localhost:8081/api/v1/zones/a");
    assert_eq!(operation.request.headers.len(), 4);
    match operation.body {
        RequestBody::Rrsets(sent) => assert_eq!(sent, body),
        other => panic!("unexpected body {:?}", other),
    }

    let operation = client.handle_post_request("zones", RequestBody::Rrsets(Rrsets { rrsets: vec![] }));
    assert_eq!(operation.request.verb, HttpVerb::Post);
    assert_eq!(operation.request.headers[2], header("content-type", "application/json"));
}

#[test]
fn statuses_fall_into_three_classes() {
    for status in [200, 201, 204] {
        assert!(is_success(status));
        assert!(!is_known_error(status));
    }
    for status in [400, 404, 422, 500] {
        assert!(!is_success(status));
        assert!(is_known_error(status));
    }
    for status in [0, 100, 199, 202, 203, 205, 301, 401, 403, 405, 421, 423, 499, 501, 503, 999, u16::MAX] {
        assert!(!is_success(status));
        assert!(!is_known_error(status));
    }
}

#[test]
fn success_is_decoded_where_the_verb_has_a_payload() {
    for status in [200, 201, 204] {
        assert_eq!(
            PowerDnsRestClient::classify(HttpVerb::Get, Ok(status)),
            Disposition::DecodePayload
        );
        assert_eq!(
            PowerDnsRestClient::classify(HttpVerb::Post, Ok(status)),
            Disposition::DecodePayload
        );
        assert_eq!(
            PowerDnsRestClient::classify(HttpVerb::Delete, Ok(status)),
            Disposition::Complete
        );
        assert_eq!(
            PowerDnsRestClient::classify(HttpVerb::Patch, Ok(status)),
            Disposition::Complete
        );
    }
}

#[test]
fn known_errors_are_explained_by_the_server() {
    for verb in [HttpVerb::Get, HttpVerb::Post, HttpVerb::Delete, HttpVerb::Patch] {
        for status in [400, 404, 422, 500] {
            assert_eq!(
                PowerDnsRestClient::classify(verb, Ok(status)),
                Disposition::DecodeServerError {
                    status_code: status
                }
            );
        }
    }
}

#[test]
fn other_statuses_are_client_errors() {
    for verb in [HttpVerb::Get, HttpVerb::Post, HttpVerb::Delete, HttpVerb::Patch] {
        for status in [202, 302, 401, 403, 409, 503] {
            assert_eq!(
                PowerDnsRestClient::classify(verb, Ok(status)),
                Disposition::Fail {
                    error: RestClientError::on_client_error(status)
                }
            );
        }
    }
}

#[test]
fn failure_to_send_is_a_transport_error() {
    assert_eq!(
        PowerDnsRestClient::classify(HttpVerb::Get, Err("connection refused".to_string())),
        Disposition::Fail {
            error: RestClientError::on_reqwest_runtime_error("connection refused".to_string())
        }
    );
}

#[test]
fn decoded_payload_is_the_result() {
    assert_eq!(PowerDnsRestClient::payload_result(Ok(17)), Ok(17));
    assert_eq!(
        PowerDnsRestClient::payload_result::<u8>(Err("EOF while parsing".to_string())),
        Err(RestClientError::on_reqwest_runtime_error(
            "EOF while parsing".to_string()
        ))
    );
}

#[test]
fn decoded_error_report_is_a_server_error() {
    let report = Error::new("Not Found".to_string(), None);
    assert_eq!(
        PowerDnsRestClient::server_error(404, Ok(report.clone())),
        RestClientError::on_powerdns_server_error(404, report)
    );
    assert_eq!(
        PowerDnsRestClient::server_error(500, Err("not JSON".to_string())).kind,
        RestClientErrorKind::ReqwestRuntimeError {
            reqwest_error: "not JSON".to_string()
        }
    );
}

#[test]
fn response_keeps_request_and_outcome() {
    let pair = PnsServerResponse::new(QueryZoneRequestEvent::new(&"a.".to_string()), Ok(3));
    assert_eq!(pair.request().zone_name, "a.");
    assert_eq!(pair.response(), &Ok(3));

    let failed: PnsServerResponse<u8, ()> =
        PnsServerResponse::new(1, Err(RestClientError::on_unspecified_error()));
    assert_eq!(failed.request(), &1);
    assert_eq!(
        failed.response(),
        &Err(RestClientError::on_unspecified_error())
    );
}

#[test]
fn facades_begin_the_calls_of_the_catalogue() {
    let base = "http://localhost:8081/".to_string();
    let key = "key".to_string();
    let servers = ServerResourceClient::new(&base, &key);
    let zones = ZoneResourceClient::new(&base, &key);
    let zone = "example.com".to_string();

    assert_eq!(
        query_server_request_path(&QueryServerRequestEvent::new()),
        "servers/localhost"
    );
    let operation = servers.spawn_query(&QueryServerRequestEvent::new());
    assert_eq!(operation.request.verb, HttpVerb::Get);
    assert_eq!(
        operation.request.uri,
        "http://localhost:8081/api/v1/servers/localhost"
    );

    let operation = zones.spawn_query(&QueryZoneRequestEvent::new(&zone));
    assert_eq!(operation.request.verb, HttpVerb::Get);
    assert_eq!(
        operation.request.uri,
        "http://localhost:8081/api/v1/servers/localhost/zones/example.com"
    );

    let request = CreateZoneRequestEvent::new(
        &zone,
        1,
        2,
        3,
        4,
        &vec![],
        &vec!["ns".to_string()],
        &"root".to_string(),
    );
    let operation = zones.spawn_create_on(&request, "20240229");
    assert_eq!(operation.request.verb, HttpVerb::Post);
    assert_eq!(
        operation.request.uri,
        "http://localhost:8081/api/v1/servers/localhost/zones"
    );
    match operation.body {
        RequestBody::NewZone(body) => {
            assert_eq!(body.name, "example.com.");
            assert_eq!(
                body.rrsets[0].records[0].content,
                "example.com. root.example.com. 2024022901 1 2 3 4"
            );
        }
        other => panic!("unexpected body {:?}", other),
    }
    let operation = zones.spawn_create(&request).unwrap();
    assert!(matches!(operation.body, RequestBody::NewZone(_)));
}

#[test]
fn creation_begins_on_the_day_of_the_reading() {
    let zones = ZoneResourceClient::new(&"http://localhost:8081/".to_string(), &"key".to_string());
    let request = CreateZoneRequestEvent::new(
        &"example.com".to_string(),
        1,
        2,
        3,
        4,
        &vec![],
        &vec!["ns".to_string()],
        &"root".to_string(),
    );

    let operation = zones
        .spawn_create_for_reading(&request, Some(86400))
        .unwrap();
    assert_eq!(operation.request.verb, HttpVerb::Post);
    assert_eq!(
        operation.request.uri,
        "http://localhost:8081/api/v1/servers/localhost/zones"
    );
    match operation.body {
        RequestBody::NewZone(body) => assert_eq!(
            body.rrsets[0].records[0].content,
            "example.com. root.example.com. 1970010201 1 2 3 4"
        ),
        other => panic!("unexpected body {:?}", other),
    }
    assert!(zones.spawn_create_for_reading(&request, None).is_none());
    assert!(zones
        .spawn_create_for_reading(&request, Some(u64::MAX))
        .is_none());
}
