use vstd::prelude::*;
use vstd::string::StringExecFns;

use crate::err_json::{err_json_of_json, spec_err_parse, ErrJson};
use crate::json::{
    parse_json_bytes, parsed_json, rendered_json, strs_view, to_json_bytes, JsonModel, JsonValue,
};
use crate::request::CreateNotificationRequestBodyJson;
use crate::response::{
    errors_match, response_ok_of_json, spec_ok_parse, CreateNotificationResponseBodyOkJson,
};

verus! {

/// The fixed target of the create-notification operation.
pub const URL: &'static str = "https://onesignal.com/api/v1/notifications";

/// The target as a character sequence.
pub open spec fn url_spec() -> Seq<char> {
    "https://onesignal.com/api/v1/notifications"@
}

/// A failure of one call: the request could not be rendered, or a
/// success body could not be read. A non-success HTTP outcome is not a
/// failure; it is a result variant of its own.
#[derive(Debug, PartialEq, Eq, Structural)]
pub enum EndpointError {
    MakeRequestUrlFailed,
    SerRequestBodyJsonFailed,
    DeResponseBodyOkJsonFailed,
}

/// The classified outcome of one HTTP exchange: a typed success value,
/// or any other outcome carrying the status and either the structured
/// error body or the raw bytes where that body could not be read.
#[derive(Debug)]
pub enum EndpointRet<T> {
    Success(T),
    Other(u16, Result<ErrJson, Vec<u8>>),
}

/// One wire request, as plain values: method, target, headers in order,
/// and the serialized body.
#[derive(Debug)]
pub struct RenderedRequest {
    pub method: String,
    pub url: String,
    pub headers: Vec<(String, String)>,
    pub body: Vec<u8>,
}

/// The create-notification operation: a request payload paired with the
/// credential that authorizes it.
#[derive(Debug)]
pub struct CreateNotification {
    pub req_body_json: CreateNotificationRequestBodyJson,
    pub rest_api_key: String,
}

/// What a string normalizes to as a URL: `None` where it does not parse.
pub uninterp spec fn normalized_url(s: Seq<char>) -> Option<Seq<char>>;

/// Relies on url::Url::parse and url::Url::as_str: whether a string
/// parses as a URL, and its normalized serialization, depend on the
/// string alone.
#[verifier::external_body]
fn parse_url_str(s: &str) -> (r: Option<String>)
    ensures
        r is Some <==> normalized_url(s@) is Some,
        r is Some ==> r->0@ == normalized_url(s@)->0,
{
    url::Url::parse(s).ok().map(|u| u.as_str().to_owned())
}

/// The authorization header value: the literal prefix `Basic ` followed
/// by the raw credential, verbatim. The provider's documented scheme
/// applies no encoding to the credential.
pub fn auth_header_value(rest_api_key: &str) -> (r: String)
    ensures
        r@ == "Basic "@ + rest_api_key@,
{
    let mut s = String::from_str("Basic ");
    s.append(rest_api_key);
    s
}

/// The character sequences of a header list.
pub open spec fn headers_view(h: Seq<(String, String)>) -> Seq<(Seq<char>, Seq<char>)> {
    Seq::new(h.len(), |i: int| (h[i].0@, h[i].1@))
}

/// The headers of a rendered request, in order, for a given credential.
pub open spec fn spec_headers(key: Seq<char>) -> Seq<(Seq<char>, Seq<char>)> {
    seq![
        ("user-agent"@, "onesignal-rest"@),
        ("accept"@, "application/json"@),
        ("content-type"@, "application/json"@),
        ("authorization"@, "Basic "@ + key),
    ]
}

/// The model a parsed document stands for, if one was parsed.
pub open spec fn opt_model(p: Option<JsonValue>) -> Option<JsonModel> {
    match p {
        Some(v) => Some(v.model()),
        None => None,
    }
}

/// What a success body parses to, where a document was parsed at all.
pub open spec fn ok_parse_of(p: Option<JsonModel>) -> Option<(Seq<char>, int, Option<JsonModel>)> {
    match p {
        Some(m) => spec_ok_parse(m),
        None => None,
    }
}

/// What an error body parses to, where a document was parsed at all.
pub open spec fn err_parse_of(p: Option<JsonModel>) -> Option<Seq<Seq<char>>> {
    match p {
        Some(m) => spec_err_parse(m),
        None => None,
    }
}

/// How one HTTP exchange is classified. A success status must carry a
/// readable success body, or the call fails. Any other status yields the
/// non-failure outcome: the structured error body where the bytes parse
/// to one, the raw bytes themselves otherwise.
pub open spec fn classified(
    status: u16,
    parsed: Option<JsonModel>,
    raw: Seq<u8>,
    r: Result<EndpointRet<CreateNotificationResponseBodyOkJson>, EndpointError>,
) -> bool {
    if status == 200 {
        match ok_parse_of(parsed) {
            Some(ok) => r matches Ok(EndpointRet::Success(b)) && b.id@ == ok.0 && b.recipients == ok.1
                && errors_match(b.errors, ok.2),
            None => r matches Err(e) && e == EndpointError::DeResponseBodyOkJsonFailed,
        }
    } else {
        match err_parse_of(parsed) {
            Some(msgs) => r matches Ok(EndpointRet::Other(st, Ok(ej))) && st == status
                && strs_view(ej.errors@) == msgs,
            None => r matches Ok(EndpointRet::Other(st, Err(b))) && st == status && b@ == raw,
        }
    }
}

/// Classify one HTTP exchange from its status, the parsed body document
/// where the body parsed, and the raw body bytes.
pub fn classify_response(status: u16, parsed: Option<JsonValue>, body: Vec<u8>) -> (r: Result<
    EndpointRet<CreateNotificationResponseBodyOkJson>,
    EndpointError,
>)
    ensures
        classified(status, opt_model(parsed), body@, r),
{
    if status == 200 {
        match parsed {
            Some(v) => match response_ok_of_json(v) {
                Some(ok) => Ok(EndpointRet::Success(ok)),
                None => Err(EndpointError::DeResponseBodyOkJsonFailed),
            },
            None => Err(EndpointError::DeResponseBodyOkJsonFailed),
        }
    } else {
        let structured = match &parsed {
            Some(v) => err_json_of_json(v),
            None => None,
        };
        match structured {
            Some(ej) => Ok(EndpointRet::Other(status, Ok(ej))),
            None => Ok(EndpointRet::Other(status, Err(body))),
        }
    }
}

impl CreateNotification {
    /// Pair a request payload with the credential that authorizes it.
    pub fn new(req_body_json: CreateNotificationRequestBodyJson, rest_api_key: String) -> (r: Self)
        ensures
            r.req_body_json == req_body_json,
            r.rest_api_key == rest_api_key,
    {
        CreateNotification { req_body_json, rest_api_key }
    }

    /// Render the wire request: method POST, the fixed target URL, the
    /// fixed content headers, the client marker, the authorization
    /// header built from the raw credential, and the serialized payload,
    /// with every unset optional field omitted.
    pub fn render_request(&self) -> (r: Result<RenderedRequest, EndpointError>)
        ensures
            r is Ok <==> normalized_url(url_spec()) is Some,
            r matches Err(e) ==> e == EndpointError::MakeRequestUrlFailed,
            r matches Ok(q) ==> q.method@ == "POST"@,
            r matches Ok(q) ==> q.url@ == normalized_url(url_spec())->0,
            r matches Ok(q) ==> headers_view(q.headers@) == spec_headers(self.rest_api_key@),
            r matches Ok(q) ==> q.body@ == rendered_json(JsonModel::Obj(self.req_body_json.doc())),
    {
        let url = match parse_url_str(URL) {
            Some(u) => u,
            None => {
                return Err(EndpointError::MakeRequestUrlFailed);
            },
        };
        let doc = self.req_body_json.to_document();
        let body = to_json_bytes(&doc);
        let mut headers: Vec<(String, String)> = Vec::new();
        headers.push((String::from_str("user-agent"), String::from_str("onesignal-rest")));
        headers.push((String::from_str("accept"), String::from_str("application/json")));
        headers.push((String::from_str("content-type"), String::from_str("application/json")));
        headers.push(
            (String::from_str("authorization"), auth_header_value(self.rest_api_key.as_str())),
        );
        let rendered = RenderedRequest { method: String::from_str("POST"), url, headers, body };
        proof {
            assert(headers_view(rendered.headers@) =~= spec_headers(self.rest_api_key@));
        }
        Ok(rendered)
    }

    /// Parse one HTTP response into the classified outcome: branch on
    /// the status, read the success body on success, and keep every
    /// diagnostic byte on any other outcome.
    pub fn parse_response(&self, status: u16, body: Vec<u8>) -> (r: Result<
        EndpointRet<CreateNotificationResponseBodyOkJson>,
        EndpointError,
    >)
        ensures
            classified(status, parsed_json(body@), body@, r),
    {
        let parsed = parse_json_bytes(body.as_slice());
        classify_response(status, parsed, body)
    }
}

} // verus!
