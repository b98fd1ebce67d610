//! Interpretation of the JSON documents the remote service answers with.
//! Parsing is serde_json's, behind trusted declarations; what a given body
//! text yields — whether it parses, whether it carries errors, its data
//! member, its acknowledgement flag, its upload destination — is
//! deterministic in the text alone, so each reading is given a name and the
//! interpreters' contracts are exact over those names: when they succeed,
//! when they fail, and with which error kind.

use vstd::prelude::*;

verus! {

#[verifier::external_type_specification]
#[verifier::external_body]
pub struct ExValue(serde_json::Value);

#[verifier::external_type_specification]
#[verifier::external_body]
pub struct ExJsonError(serde_json::Error);

/// Whether `s` is a document serde_json's parser accepts.
pub uninterp spec fn json_parses(s: Seq<char>) -> bool;

/// Whether the parsed document carries a non-empty `errors` array;
/// meaningful only when `json_parses(s)`.
pub uninterp spec fn graphql_errors_nonempty(s: Seq<char>) -> bool;

/// The compact JSON text of the member of `data` named by `field` — of all
/// of `data` when no name is given or the member is absent — and nothing
/// when the document has no `data` member; meaningful only when
/// `json_parses(s)`.
pub uninterp spec fn graphql_data_text(s: Seq<char>, field: Option<Seq<char>>) -> Option<Seq<char>>;

/// The document's `success` member: the boolean it holds when the document
/// parses to an object with a boolean `success`, nothing otherwise.
pub uninterp spec fn report_success_of(s: Seq<char>) -> Option<bool>;

/// The document's `uploadUrl` member: the string it holds when the document
/// parses to an object with a string `uploadUrl`, nothing otherwise.
pub uninterp spec fn report_upload_url_of(s: Seq<char>) -> Option<Seq<char>>;

/// The view of an optional field name.
pub open spec fn spec_field(f: Option<&str>) -> Option<Seq<char>> {
    match f {
        Some(s) => Some(s@),
        None => None,
    }
}

/// Relies on serde_json::from_str::<Value>: parses a JSON document into a
/// value tree; acceptance is a function of the text alone.
#[verifier::external_body]
fn parse_json(s: &str) -> (r: Result<serde_json::Value, serde_json::Error>)
    ensures
        r is Ok <==> json_parses(s@),
{
    serde_json::from_str(s)
}

/// Relies on serde_json::Value::get: the member of an object under a key,
/// when the value is an object holding that key.
#[verifier::external_body]
fn json_get<'a>(v: &'a serde_json::Value, key: &str) -> (r: Option<&'a serde_json::Value>) {
    v.get(key)
}

/// Relies on serde_json::to_string_pretty: the indented JSON text of a
/// value; an error is rendered instead of unwrapped.
#[verifier::external_body]
fn json_render_pretty(v: &serde_json::Value) -> (r: String) {
    match serde_json::to_string_pretty(v) {
        Ok(s) => s,
        Err(e) => format!("{e}"),
    }
}

/// Relies on serde_json::Error's Display: the parser's message.
#[verifier::external_body]
fn json_error_message(e: &serde_json::Error) -> (r: String) {
    format!("{e}")
}

/// Relies on serde_json::from_str::<Value>, Value::get and Value::as_array:
/// whether the parsed document carries a non-empty `errors` array.
#[verifier::external_body]
fn read_graphql_errors_nonempty(body: &str) -> (r: bool)
    ensures
        json_parses(body@) ==> r == graphql_errors_nonempty(body@),
{
    match serde_json::from_str::<serde_json::Value>(body) {
        Ok(v) => match v.get("errors") {
            Some(errors) => match errors.as_array() {
                Some(items) => !items.is_empty(),
                None => false,
            },
            None => false,
        },
        Err(_) => false,
    }
}

/// Relies on serde_json::from_str::<Value>, Value::get and Value's Display:
/// the compact JSON text of the named member of `data`, of all of `data`
/// when no name is given or the member is absent, and nothing when the
/// document has no `data` member.
#[verifier::external_body]
fn read_graphql_data_text(body: &str, field: Option<&str>) -> (r: Option<String>)
    ensures
        json_parses(body@) ==> (match r {
            Some(t) => graphql_data_text(body@, spec_field(field)) == Some(t@),
            None => graphql_data_text(body@, spec_field(field)) is None,
        }),
{
    let parsed: serde_json::Value = match serde_json::from_str(body) {
        Ok(v) => v,
        Err(_) => return None,
    };
    let data = parsed.get("data")?;
    let member = match field {
        Some(name) => data.get(name).unwrap_or(data),
        None => data,
    };
    Some(format!("{member}"))
}

/// Relies on serde_json::from_str::<Value>, Value::get and Value::as_bool:
/// the document's boolean `success` member, when it parses and holds one.
#[verifier::external_body]
fn read_report_success(body: &str) -> (r: Option<bool>)
    ensures
        r == report_success_of(body@),
{
    match serde_json::from_str::<serde_json::Value>(body) {
        Ok(v) => match v.get("success") {
            Some(s) => s.as_bool(),
            None => None,
        },
        Err(_) => None,
    }
}

/// Relies on serde_json::from_str::<Value>, Value::get and Value::as_str:
/// the document's string `uploadUrl` member, when it parses and holds one.
#[verifier::external_body]
fn read_report_upload_url(body: &str) -> (r: Option<String>)
    ensures
        match r {
            Some(u) => report_upload_url_of(body@) == Some(u@),
            None => report_upload_url_of(body@) is None,
        },
{
    match serde_json::from_str::<serde_json::Value>(body) {
        Ok(v) => match v.get("uploadUrl") {
            Some(u) => match u.as_str() {
                Some(s) => Some(s.to_owned()),
                None => None,
            },
            None => None,
        },
        Err(_) => None,
    }
}

/// What can go wrong while delivering a report, minus any metadata. The
/// transport variant is produced only by the caller who performs the HTTP
/// exchange; deserialization failures and server-reported errors are
/// produced here and retried exactly like transport failures.
#[derive(Clone, Debug)]
pub enum ReportSendErrorKind {
    /// The HTTP exchange itself failed; carries the transport's message.
    Net(String),
    /// The response was not the JSON shape expected.
    Json(String),
    /// The service answered with a non-empty error array, or without data.
    GraphQL(String),
    /// The service answered but did not acknowledge the report; carries the
    /// response text.
    NotSuccessful(String),
}

/// Digs the useful part out of a GraphQL response body. It succeeds exactly
/// when the body parses, its `errors` array is absent or empty, and a
/// `data` member is present; the text handed back is then the rendering of
/// the named member of `data` (of all of `data` when the name is absent).
/// A body that does not parse fails as a deserialization error; a parsed
/// body with reported errors or without data fails as a service error.
/// Transport errors and acknowledgement are judged by the caller, never
/// here.
pub fn interpret_graphql_response(body: &str, field: Option<&str>) -> (r: Result<
    String,
    ReportSendErrorKind,
>)
    ensures
        r is Ok <==> json_parses(body@) && !graphql_errors_nonempty(body@) && (graphql_data_text(
            body@,
            spec_field(field),
        ) is Some),
        r matches Ok(t) ==> graphql_data_text(body@, spec_field(field)) == Some(t@),
        !json_parses(body@) <==> (r matches Err(k) && k is Json),
        (json_parses(body@) && (graphql_errors_nonempty(body@) || graphql_data_text(
            body@,
            spec_field(field),
        ) is None)) <==> (r matches Err(k) && k is GraphQL),
{
    let parsed = match parse_json(body) {
        Ok(v) => v,
        Err(e) => {
            return Err(ReportSendErrorKind::Json(json_error_message(&e)));
        },
    };
    if read_graphql_errors_nonempty(body) {
        let rendered = match json_get(&parsed, "errors") {
            Some(errors) => json_render_pretty(errors),
            None => String::new(),
        };
        return Err(ReportSendErrorKind::GraphQL(rendered));
    }
    match read_graphql_data_text(body, field) {
        Some(text) => Ok(text),
        None => Err(
            ReportSendErrorKind::GraphQL("No 'data' field in the GraphQL response.".to_owned()),
        ),
    }
}

/// Reads the acknowledgement of the report mutation. It succeeds exactly
/// when the body's `success` member is the boolean true, and then carries
/// the body's optional `uploadUrl` string; a body whose `success` is the
/// boolean false is an unacknowledged report and carries the body text back
/// for the logs; a body without a boolean `success` — malformed or of
/// another shape — is a deserialization failure.
pub fn interpret_report_response(body: &str) -> (r: Result<Option<String>, ReportSendErrorKind>)
    ensures
        r is Ok <==> report_success_of(body@) == Some(true),
        r matches Ok(u) ==> (match u {
            Some(s) => report_upload_url_of(body@) == Some(s@),
            None => report_upload_url_of(body@) is None,
        }),
        report_success_of(body@) == Some(false) <==> (r matches Err(k) && (
        k matches ReportSendErrorKind::NotSuccessful(t) && t@ == body@)),
        report_success_of(body@) is None <==> (r matches Err(k) && k is Json),
{
    match read_report_success(body) {
        Some(true) => Ok(read_report_upload_url(body)),
        Some(false) => Err(ReportSendErrorKind::NotSuccessful(body.to_owned())),
        None => Err(
            ReportSendErrorKind::Json("missing or invalid `success` member".to_owned()),
        ),
    }
}

} // verus!
