use pdns_cli::pdns::error::Error;
use pdns_cli::rest_client::errors::{show_status, RestClientError, RestClientErrorKind};

#[test]
fn constructors_give_their_kind() {
    assert_eq!(
        RestClientError::on_unspecified_error().kind(),
        RestClientErrorKind::UnspecifiedError { message: None }
    );
    assert_eq!(
        RestClientError::on_unspecified_error_message(&"why".to_string()).kind(),
        RestClientErrorKind::UnspecifiedError {
            message: Some("why".to_string())
        }
    );
    assert_eq!(
        RestClientError::on_tokio_runtime_error("channel closed".to_string()).kind(),
        RestClientErrorKind::TokioRuntimeError {
            tokio_error: "channel closed".to_string()
        }
    );
    assert_eq!(
        RestClientError::on_reqwest_runtime_error("timeout".to_string()).kind(),
        RestClientErrorKind::ReqwestRuntimeError {
            reqwest_error: "timeout".to_string()
        }
    );
    assert_eq!(
        RestClientError::on_client_error(403).kind(),
        RestClientErrorKind::ClientError { status_code: 403 }
    );
    let report = Error::new("internal".to_string(), Some(vec!["db down".to_string()]));
    assert_eq!(
        RestClientError::on_powerdns_server_error(500, report.clone()).kind(),
        RestClientErrorKind::PowerDnsServerError {
            status_code: 500,
            server_error: report
        }
    );
}

#[test]
fn failures_describe_themselves() {
    assert_eq!(
        RestClientError::on_unspecified_error().description(),
        "Unspecified error: None"
    );
    assert_eq!(
        RestClientError::on_unspecified_error_message(&"disk full".to_string()).description(),
        "Unspecified error: disk full"
    );
    assert_eq!(
        RestClientError::on_tokio_runtime_error("channel closed".to_string()).description(),
        "Tokio runtime error: channel closed"
    );
    assert_eq!(
        RestClientError::on_reqwest_runtime_error("timeout".to_string()).description(),
        "Reqwest runtime error: timeout"
    );
    assert_eq!(
        RestClientError::on_client_error(403).description(),
        "Unexpected client status code 403 Forbidden"
    );
    assert_eq!(
        RestClientError::on_powerdns_server_error(
            500,
            Error::new("internal".to_string(), Some(vec!["db down".to_string()]))
        )
        .description(),
        "PowerDNS server error: status code: 500 Internal Server Error, server error error: internal, errors: db down"
    );
    assert_eq!(
        RestClientError::on_powerdns_server_error(404, Error::new("Not Found".to_string(), None))
            .description(),
        "PowerDNS server error: status code: 404 Not Found, server error error: Not Found"
    );
}

#[test]
fn status_is_shown_with_its_reason() {
    assert_eq!(show_status(200), "200 OK");
    assert_eq!(show_status(418), "418 I'm a teapot");
    assert_eq!(show_status(999), "999 <unknown status code>");
    assert_eq!(show_status(100), "100 Continue");
}

#[test]
fn number_that_is_no_status_is_shown_bare() {
    assert_eq!(show_status(0), "0");
    assert_eq!(show_status(99), "99");
    assert_eq!(show_status(1000), "1000");
    assert_eq!(show_status(u16::MAX), "65535");
    assert_eq!(
        RestClientError::on_client_error(42).description(),
        "Unexpected client status code 42"
    );
}

#[test]
fn not_found_is_a_server_error_with_status_404() {
    let report = Error::new("Not Found".to_string(), None);
    assert!(RestClientError::on_powerdns_server_error(404, report.clone()).not_found());
    assert!(!RestClientError::on_powerdns_server_error(400, report).not_found());
    assert!(!RestClientError::on_client_error(404).not_found());
    assert!(!RestClientError::on_unspecified_error().not_found());
}

#[test]
fn server_report_describes_itself() {
    let report = Error::new(
        "bad".to_string(),
        Some(vec!["one".to_string(), "two".to_string()]),
    );
    assert_eq!(report.error(), "bad");
    assert_eq!(
        report.errors(),
        Some(vec!["one".to_string(), "two".to_string()])
    );
    assert_eq!(report.description(), "error: bad, errors: one, two");
    assert_eq!(report.clone(), report);

    let bare = Error::new("bad".to_string(), None);
    assert_eq!(bare.errors(), None);
    assert_eq!(bare.description(), "error: bad");

    let empty = Error::new("bad".to_string(), Some(vec![]));
    assert_eq!(empty.description(), "error: bad, errors: ");
}

#[test]
fn copies_of_failures_are_equal() {
    for error in [
        RestClientError::on_unspecified_error(),
        RestClientError::on_unspecified_error_message(&"x".to_string()),
        RestClientError::on_tokio_runtime_error("t".to_string()),
        RestClientError::on_reqwest_runtime_error("r".to_string()),
        RestClientError::on_client_error(302),
        RestClientError::on_powerdns_server_error(
            422,
            Error::new("e".to_string(), Some(vec!["d".to_string()])),
        ),
    ] {
        assert_eq!(error.clone(), error);
    }
}
