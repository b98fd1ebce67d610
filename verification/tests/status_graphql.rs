//! The status channel and the interpretation of service responses.

use slippi_ext::graphql::{interpret_graphql_response, interpret_report_response,
    ReportSendErrorKind};
use slippi_ext::reporter::{GameReporter, StatusDispatch};
use slippi_ext::status::{build_status_report_request, status_response_is_success,
    status_worker_step, StatusAction, StatusReportEvent};

#[test]
fn report_match_status_synchronous_bypasses_the_queue() {
    let reporter = GameReporter::new();
    let dispatch = reporter.report_match_status(
        "uid-9".to_string(),
        "key-9".to_string(),
        "match-9".to_string(),
        "ABANDONED".to_string(),
        false,
    );
    // Synchronous mode hands the exact request body straight back; the
    // report queue is untouched and owes nothing.
    assert!(reporter.queue.reports.is_empty());
    match dispatch {
        StatusDispatch::Direct { body } => {
            let expected = "{\"query\":\"mutation ($report: OnlineMatchStatusReportInput!) { reportOnlineMatchStatus (report: $report) }\",\"variables\":{\"report\":{\"fbUid\":\"uid-9\",\"matchId\":\"match-9\",\"playKey\":\"key-9\",\"status\":\"ABANDONED\"}}}";
            assert_eq!(String::from_utf8(body).unwrap(), expected);
            // The caller sends it and reads the mutation result directly.
            assert!(status_response_is_success("true"));
            assert!(!status_response_is_success("false"));
            assert!(!status_response_is_success("\"true\""));
        },
        StatusDispatch::Queued { .. } => panic!("synchronous delivery must be direct"),
    }
}

#[test]
fn status_worker_sends_pings_and_stops_on_shutdown() {
    let action = status_worker_step(StatusReportEvent::ReportAvailable {
        uid: "u".to_string(),
        play_key: "k".to_string(),
        match_id: "m".to_string(),
        status: "COMPLETED".to_string(),
    });
    match action {
        StatusAction::Send { body } => {
            assert_eq!(body, build_status_report_request("u", "m", "k", "COMPLETED"));
        },
        StatusAction::Stop => panic!("a ping event must be sent"),
    }
    assert!(matches!(status_worker_step(StatusReportEvent::Shutdown), StatusAction::Stop));
}

#[test]
fn status_request_escapes_embedded_quotes() {
    let body = build_status_report_request("u", "m\"x", "k", "s");
    let text = String::from_utf8(body).unwrap();
    assert!(text.contains("\"matchId\":\"m\\\"x\""));
}

#[test]
fn report_response_acknowledgement_and_upload_url() {
    // Acknowledged, with an upload destination.
    let r = interpret_report_response("{\"success\":true,\"uploadUrl\":\"https://u\"}");
    assert_eq!(r.unwrap(), Some("https://u".to_string()));
    // Acknowledged, no destination granted.
    let r = interpret_report_response("{\"success\":true}");
    assert_eq!(r.unwrap(), None);
    // A null destination counts as none.
    let r = interpret_report_response("{\"success\":true,\"uploadUrl\":null}");
    assert_eq!(r.unwrap(), None);
    // Unacknowledged: the response text comes back for the logs.
    match interpret_report_response("{\"success\":false}") {
        Err(ReportSendErrorKind::NotSuccessful(text)) => {
            assert_eq!(text, "{\"success\":false}");
        },
        other => panic!("expected an unacknowledged error, got {other:?}"),
    }
    // Malformed JSON and a missing flag are deserialization failures.
    assert!(matches!(
        interpret_report_response("not json"),
        Err(ReportSendErrorKind::Json(_))
    ));
    assert!(matches!(
        interpret_report_response("{}"),
        Err(ReportSendErrorKind::Json(_))
    ));
    assert!(matches!(
        interpret_report_response("{\"success\":\"yes\"}"),
        Err(ReportSendErrorKind::Json(_))
    ));
}

#[test]
fn graphql_response_errors_take_precedence_and_data_is_extracted() {
    // A non-empty error array fails the exchange.
    match interpret_graphql_response(
        "{\"errors\":[{\"message\":\"boom\"}],\"data\":{\"f\":1}}",
        Some("f"),
    ) {
        Err(ReportSendErrorKind::GraphQL(text)) => assert!(text.contains("boom")),
        other => panic!("expected a service-reported error, got {other:?}"),
    }
    // An empty error array is ignored.
    let r = interpret_graphql_response("{\"errors\":[],\"data\":{\"f\":{\"x\":1}}}", Some("f"));
    assert_eq!(r.unwrap(), "{\"x\":1}");
    // Without the named member, all of data comes back.
    let r = interpret_graphql_response("{\"data\":{\"g\":true}}", Some("f"));
    assert_eq!(r.unwrap(), "{\"g\":true}");
    // Without a data member the exchange fails.
    match interpret_graphql_response("{}", None) {
        Err(ReportSendErrorKind::GraphQL(text)) => {
            assert_eq!(text, "No 'data' field in the GraphQL response.");
        },
        other => panic!("expected a missing-data error, got {other:?}"),
    }
    // Malformed JSON is a deserialization failure.
    assert!(matches!(
        interpret_graphql_response("{", None),
        Err(ReportSendErrorKind::Json(_))
    ));
    // The boolean result of the status mutation renders as its literal.
    let r = interpret_graphql_response(
        "{\"data\":{\"reportOnlineMatchStatus\":true}}",
        Some("reportOnlineMatchStatus"),
    );
    assert_eq!(r.unwrap(), "true");
}
