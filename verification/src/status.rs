//! The independent channel for lightweight match-status pings. A ping is
//! delivered either synchronously — the caller gets the rendered request at
//! once, sends it, and sees the result — or asynchronously through a worker
//! of its own, completely decoupled from the report queue's retry machinery.
//! There is no retry on this path: one attempt is made and the outcome is
//! only logged.

use vstd::prelude::*;
use vstd::string::StringSliceAdditionalSpecFns;
use vstd::utf8::encode_utf8;
use crate::jsonenc::{build_graphql_request_body, push_json_str, push_str_bytes, spec_json_str,
    spec_request_body};

verus! {

/// Events dispatched to the status-report worker.
#[derive(Clone, Debug)]
pub enum StatusReportEvent {
    ReportAvailable { uid: String, play_key: String, match_id: String, status: String },
    Shutdown,
}

/// The GraphQL text of the status mutation.
pub open spec fn spec_status_mutation() -> Seq<u8> {
    ("mutation ($report: OnlineMatchStatusReportInput!) { reportOnlineMatchStatus (report: $report) }").spec_bytes()
}

/// The GraphQL variables object of a status ping.
pub open spec fn spec_status_variables(
    uid: Seq<char>,
    match_id: Seq<char>,
    play_key: Seq<char>,
    status: Seq<char>,
) -> Seq<u8> {
    ("{\"report\":{\"fbUid\":").spec_bytes() + spec_json_str(encode_utf8(uid)) + (
    ",\"matchId\":").spec_bytes() + spec_json_str(encode_utf8(match_id)) + (
    ",\"playKey\":").spec_bytes() + spec_json_str(encode_utf8(play_key)) + (
    ",\"status\":").spec_bytes() + spec_json_str(encode_utf8(status)) + ("}}").spec_bytes()
}

/// The full HTTP body of one status ping.
pub open spec fn spec_status_request(
    uid: Seq<char>,
    match_id: Seq<char>,
    play_key: Seq<char>,
    status: Seq<char>,
) -> Seq<u8> {
    spec_request_body(
        spec_status_mutation(),
        Some(spec_status_variables(uid, match_id, play_key, status)),
    )
}

/// Renders the HTTP body of one status ping.
pub fn build_status_report_request(
    uid: &str,
    match_id: &str,
    play_key: &str,
    status: &str,
) -> (r: Vec<u8>)
    ensures
        r@ == spec_status_request(uid@, match_id@, play_key@, status@),
{
    let mut vars: Vec<u8> = Vec::new();
    push_str_bytes(&mut vars, "{\"report\":{\"fbUid\":");
    push_json_str(&mut vars, uid);
    push_str_bytes(&mut vars, ",\"matchId\":");
    push_json_str(&mut vars, match_id);
    push_str_bytes(&mut vars, ",\"playKey\":");
    push_json_str(&mut vars, play_key);
    push_str_bytes(&mut vars, ",\"status\":");
    push_json_str(&mut vars, status);
    push_str_bytes(&mut vars, "}}");
    assert(vars@ =~= spec_status_variables(uid@, match_id@, play_key@, status@));
    let body = build_graphql_request_body(
        "mutation ($report: OnlineMatchStatusReportInput!) { reportOnlineMatchStatus (report: $report) }",
        Some(&vars),
    );
    body
}

/// What the status worker does for one received event.
#[derive(Clone, Debug)]
pub enum StatusAction {
    /// Send this body, once, and log the outcome.
    Send { body: Vec<u8> },
    /// Wind the worker down.
    Stop,
}

/// One iteration of the status worker: a ping event becomes exactly one send
/// of the rendered request, and a shutdown event stops the worker.
pub fn status_worker_step(event: StatusReportEvent) -> (r: StatusAction)
    ensures
        (event matches StatusReportEvent::ReportAvailable { uid, play_key, match_id, status } ==> (
        r matches StatusAction::Send { body } && body@ == spec_status_request(
            uid@,
            match_id@,
            play_key@,
            status@,
        ))),
        event is Shutdown ==> r is Stop,
{
    match event {
        StatusReportEvent::ReportAvailable { uid, play_key, match_id, status } => {
            let body = build_status_report_request(
                uid.as_str(),
                match_id.as_str(),
                play_key.as_str(),
                status.as_str(),
            );
            StatusAction::Send { body }
        },
        StatusReportEvent::Shutdown => StatusAction::Stop,
    }
}

/// Whether the mutation's returned field acknowledges the status report;
/// the service answers with the JSON literal `true` on success.
pub fn status_response_is_success(value: &str) -> (r: bool)
    ensures
        r <==> value@ == ("true")@,
{
    crate::strutil::str_eq(value, "true")
}

} // verus!
