//! The request relay: how a described request goes out, and how whatever came
//! back is handed on.
//!
//! `plan_request` turns the description into the one request that the caller
//! sends, once and without retry; `normalize_response` reads the response.

use crate::json::{is_json, json_entries, json_parses, object_entries, EntryView};
use crate::text::{equals_folded, folds_to, same_text};
use vstd::prelude::*;
use vstd::string::*;

verus! {

/// A request as its author describes it.
#[derive(Debug, PartialEq, Eq)]
pub struct RequestOptions {
    pub method: String,
    pub url: String,
    /// Header names and values; their order carries no meaning.
    pub headers: Option<Vec<(String, String)>>,
    /// The body as JSON text.
    pub body: Option<String>,
    /// A bearer token for the `Authorization` header.
    pub token: Option<String>,
}

/// The four verbs that are relayed.
#[derive(Clone, Copy, Debug, PartialEq, Eq, Structural)]
pub enum Method {
    Get,
    Post,
    Put,
    Delete,
}

/// The verb that a method text names, if it names one of the four.
pub open spec fn method_of(text: Seq<char>) -> Option<Method> {
    if text == "GET"@ {
        Some(Method::Get)
    } else if text == "POST"@ {
        Some(Method::Post)
    } else if text == "PUT"@ {
        Some(Method::Put)
    } else if text == "DELETE"@ {
        Some(Method::Delete)
    } else {
        None
    }
}

/// Reads a method text; the match is exact.
pub fn parse_method(text: &str) -> (r: Option<Method>)
    ensures
        r == method_of(text@),
{
    if same_text(text, "GET") {
        Some(Method::Get)
    } else if same_text(text, "POST") {
        Some(Method::Post)
    } else if same_text(text, "PUT") {
        Some(Method::Put)
    } else if same_text(text, "DELETE") {
        Some(Method::Delete)
    } else {
        None
    }
}

/// Why a relay call failed.
#[derive(Debug, PartialEq, Eq)]
pub enum RelayError {
    /// The method is none of the four verbs; nothing was sent.
    UnsupportedMethod(String),
    /// The request was sent and no response came; the text says why.
    Transport(String),
}

/// The text shown for a `RelayError`.
pub open spec fn relay_error_text(e: RelayError) -> Seq<char> {
    match e {
        RelayError::UnsupportedMethod(method) => "不支持的请求方法: "@ + method@,
        RelayError::Transport(why) => why@,
    }
}

impl RelayError {
    /// Describes the error for display.
    pub fn message(&self) -> (r: String)
        ensures
            r@ == relay_error_text(*self),
    {
        match self {
            RelayError::UnsupportedMethod(method) => {
                let mut s = String::from_str("不支持的请求方法: ");
                s.append(method.as_str());
                s
            },
            RelayError::Transport(why) => why.clone(),
        }
    }
}

/// A header as plain values: name and value.
pub type HeaderView = (Seq<char>, Seq<char>);

/// The header name that asks for a multipart body, whatever its case.
pub open spec fn is_sentinel(name: Seq<char>) -> bool {
    folds_to(name, "x-use-multipart"@)
}

/// The header name `Authorization`, whatever its case.
pub open spec fn is_authorization(name: Seq<char>) -> bool {
    folds_to(name, "authorization"@)
}

/// Whether some header is the sentinel with the value `true`.
pub open spec fn asks_multipart(headers: Seq<HeaderView>) -> bool {
    exists|i: int|
        0 <= i < headers.len() && is_sentinel((#[trigger] headers[i]).0) && headers[i].1
            == "true"@
}

/// Whether a header of the description is copied onto the request: the
/// sentinel never is, and `Authorization` is not where a token replaces it.
pub open spec fn is_forwarded(header: HeaderView, has_token: bool) -> bool {
    !is_sentinel(header.0) && !(has_token && is_authorization(header.0))
}

/// `is_forwarded` as a predicate on headers.
pub open spec fn forwarded(has_token: bool) -> spec_fn(HeaderView) -> bool {
    |header: HeaderView| is_forwarded(header, has_token)
}

/// The headers of the outgoing request: those of the description that are
/// forwarded, unchanged and in their order, and then the bearer token's.
pub open spec fn headers_sent(headers: Seq<HeaderView>, token: Option<Seq<char>>) -> Seq<
    HeaderView,
> {
    let copied = headers.filter(forwarded(token is Some));
    match token {
        Some(t) => copied.push(("Authorization"@, "Bearer "@ + t)),
        None => copied,
    }
}

/// The form field for an entry of a JSON object: a string gives its content,
/// any other value its JSON text.
pub open spec fn field_of(entry: EntryView) -> HeaderView {
    (
        entry.0,
        match entry.1 {
            Some(content) => content,
            None => entry.2,
        },
    )
}

/// The form fields for the entries of a JSON object, one for each.
pub open spec fn form_fields(entries: Seq<EntryView>) -> Seq<HeaderView> {
    Seq::new(entries.len(), |i: int| field_of(entries[i]))
}

/// The body of the outgoing request.
#[derive(Debug, PartialEq, Eq)]
pub enum BodyEncoding {
    /// No body.
    Empty,
    /// This JSON text.
    Json(String),
    /// A multipart form of these text fields.
    Multipart(Vec<(String, String)>),
}

/// A `BodyEncoding` as plain values.
pub enum BodyView {
    Empty,
    Json(Seq<char>),
    Multipart(Seq<HeaderView>),
}

impl View for BodyEncoding {
    type V = BodyView;

    open spec fn view(&self) -> BodyView {
        match *self {
            BodyEncoding::Empty => BodyView::Empty,
            BodyEncoding::Json(text) => BodyView::Json(text@),
            BodyEncoding::Multipart(fields) => BodyView::Multipart(fields.deep_view()),
        }
    }
}

/// How a body goes out. `GET` carries none. A multipart form is sent where it
/// was asked for and the body is a JSON object, whose entries `entries` holds;
/// in every other case the body goes out as JSON.
pub open spec fn body_sent(
    method: Method,
    multipart: bool,
    body: Option<Seq<char>>,
    entries: Option<Seq<EntryView>>,
) -> BodyView {
    if method == Method::Get || body is None {
        BodyView::Empty
    } else if multipart && entries is Some {
        BodyView::Multipart(form_fields(entries->0))
    } else {
        BodyView::Json(body->0)
    }
}

/// The request that is sent.
#[derive(Debug, PartialEq, Eq)]
pub struct OutgoingRequest {
    pub method: Method,
    pub url: String,
    pub headers: Vec<(String, String)>,
    pub body: BodyEncoding,
}

/// An `OutgoingRequest` as plain values.
pub struct OutgoingView {
    pub method: Method,
    pub url: Seq<char>,
    pub headers: Seq<HeaderView>,
    pub body: BodyView,
}

impl View for OutgoingRequest {
    type V = OutgoingView;

    open spec fn view(&self) -> OutgoingView {
        OutgoingView {
            method: self.method,
            url: self.url@,
            headers: self.headers.deep_view(),
            body: self.body@,
        }
    }
}

/// The headers of a description; none where it gives none.
pub open spec fn headers_of(options: RequestOptions) -> Seq<HeaderView> {
    match options.headers {
        Some(headers) => headers.deep_view(),
        None => Seq::empty(),
    }
}

/// The request that a description with a supported method leads to, given the
/// entries of its body where that is a JSON object.
pub open spec fn request_of(
    options: RequestOptions,
    method: Method,
    entries: Option<Seq<EntryView>>,
) -> OutgoingView {
    OutgoingView {
        method,
        url: options.url@,
        headers: headers_sent(headers_of(options), options.token.deep_view()),
        body: body_sent(
            method,
            asks_multipart(headers_of(options)),
            options.body.deep_view(),
            entries,
        ),
    }
}

/// Tells whether the headers ask for a multipart body.
pub fn wants_multipart(headers: &Vec<(String, String)>) -> (r: bool)
    ensures
        r == asks_multipart(headers.deep_view()),
{
    let mut i: usize = 0;
    while i < headers.len()
        invariant
            i <= headers.len(),
            forall|j: int|
                0 <= j < i ==> !(is_sentinel((#[trigger] headers.deep_view()[j]).0)
                    && headers.deep_view()[j].1 == "true"@),
        decreases headers.len() - i,
    {
        if equals_folded(headers[i].0.as_str(), "x-use-multipart") && same_text(
            headers[i].1.as_str(),
            "true",
        ) {
            assert(is_sentinel(headers.deep_view()[i as int].0));
            return true;
        }
        i += 1;
    }
    false
}

/// Builds the headers of the outgoing request.
pub fn outgoing_headers(headers: &Vec<(String, String)>, token: &Option<String>) -> (out: Vec<
    (String, String),
>)
    ensures
        out.deep_view() == headers_sent(headers.deep_view(), token.deep_view()),
{
    let has_token = token.is_some();
    let ghost all = headers.deep_view();
    let ghost keep = forwarded(has_token);
    let mut out: Vec<(String, String)> = Vec::new();
    let mut i: usize = 0;
    proof {
        reveal(Seq::filter);
    }
    while i < headers.len()
        invariant
            i <= headers.len(),
            all == headers.deep_view(),
            keep == forwarded(has_token),
            out.deep_view() == all.take(i as int).filter(keep),
        decreases headers.len() - i,
    {
        let name = &headers[i].0;
        let value = &headers[i].1;
        let dropped = equals_folded(name.as_str(), "x-use-multipart") || (has_token
            && equals_folded(name.as_str(), "authorization"));
        proof {
            assert(all.take(i + 1) =~= all.take(i as int).push(all[i as int]));
            all.take(i as int).lemma_filter_push(all[i as int], keep);
        }
        if !dropped {
            out.push((name.clone(), value.clone()));
        }
        i += 1;
    }
    assert(all.take(i as int) =~= all);
    match token {
        Some(t) => {
            let mut bearer = String::from_str("Bearer ");
            bearer.append(t.as_str());
            out.push((String::from_str("Authorization"), bearer));
        },
        None => {},
    }
    out
}

/// Builds the fields of a multipart form from the entries of a JSON object.
pub fn multipart_fields(entries: &Vec<(String, Option<String>, String)>) -> (out: Vec<
    (String, String),
>)
    ensures
        out.deep_view() == form_fields(entries.deep_view()),
{
    let mut out: Vec<(String, String)> = Vec::new();
    let mut i: usize = 0;
    while i < entries.len()
        invariant
            i <= entries.len(),
            out.deep_view() =~= form_fields(entries.deep_view()).take(i as int),
        decreases entries.len() - i,
    {
        let text = match &entries[i].1 {
            Some(content) => content.clone(),
            None => entries[i].2.clone(),
        };
        let ghost before = out.deep_view();
        let ghost entry = entries.deep_view()[i as int];
        out.push((entries[i].0.clone(), text));
        assert(out.deep_view() =~= before.push(field_of(entry)));
        i += 1;
    }
    out
}

/// Chooses how the body goes out, given the entries of the body where it is a
/// JSON object.
pub fn encode_body(
    method: Method,
    multipart: bool,
    body: &Option<String>,
    entries: Option<Vec<(String, Option<String>, String)>>,
) -> (r: BodyEncoding)
    ensures
        r@ == body_sent(method, multipart, body.deep_view(), entries.deep_view()),
{
    match method {
        Method::Get => {
            return BodyEncoding::Empty;
        },
        _ => {},
    }
    match body {
        None => BodyEncoding::Empty,
        Some(text) => {
            if multipart {
                match entries {
                    Some(e) => BodyEncoding::Multipart(multipart_fields(&e)),
                    None => BodyEncoding::Json(text.clone()),
                }
            } else {
                BodyEncoding::Json(text.clone())
            }
        },
    }
}

/// Turns a description into the request to send.
///
/// Fails exactly when the method is none of `GET`, `POST`, `PUT` and
/// `DELETE`; the caller then sends nothing. Otherwise the sentinel header is
/// read and dropped, the other headers are copied, the bearer token replaces
/// any `Authorization` header, and the body is encoded.
pub fn plan_request(options: &RequestOptions) -> (r: Result<OutgoingRequest, RelayError>)
    ensures
        match method_of(options.method@) {
            None => r matches Err(RelayError::UnsupportedMethod(m)) && m@ == options.method@,
            Some(method) => r matches Ok(request) && request@ == request_of(
                *options,
                method,
                match options.body {
                    Some(text) => json_entries(text@),
                    None => None,
                },
            ),
        },
{
    let method = match parse_method(options.method.as_str()) {
        Some(m) => m,
        None => {
            return Err(RelayError::UnsupportedMethod(options.method.clone()));
        },
    };
    let none: Vec<(String, String)> = Vec::new();
    let given = match &options.headers {
        Some(h) => h,
        None => &none,
    };
    assert(none.deep_view() =~= Seq::empty());
    let multipart = wants_multipart(given);
    let headers = outgoing_headers(given, &options.token);
    let entries = match &options.body {
        Some(text) => {
            if multipart && method != Method::Get {
                object_entries(text.as_str())
            } else {
                None
            }
        },
        None => None,
    };
    let body = encode_body(method, multipart, &options.body, entries);
    Ok(OutgoingRequest { method, url: options.url.clone(), headers, body })
}

/// The sentinel header is never sent, with or without a token.
pub proof fn sentinel_is_never_sent(headers: Seq<HeaderView>, token: Option<Seq<char>>)
    ensures
        forall|i: int|
            0 <= i < headers_sent(headers, token).len() ==> !is_sentinel(
                (#[trigger] headers_sent(headers, token)[i]).0,
            ),
{
    let keep = forwarded(token is Some);
    let copied = headers.filter(keep);
    assert forall|i: int| 0 <= i < copied.len() implies !is_sentinel((#[trigger] copied[i]).0) by {
        headers.lemma_filter_pred(keep, i);
    }
    reveal_strlit("Authorization");
    reveal_strlit("x-use-multipart");
}

/// With a bearer token, the request carries one `Authorization` header, the
/// last, and it is the token's: whatever the description gave under that name
/// is gone.
pub proof fn token_replaces_authorization(headers: Seq<HeaderView>, token: Seq<char>)
    ensures
        headers_sent(headers, Some(token)).len() > 0,
        headers_sent(headers, Some(token)).last() == (("Authorization"@, "Bearer "@ + token)),
        forall|i: int|
            0 <= i < headers_sent(headers, Some(token)).len() - 1 ==> !is_authorization(
                (#[trigger] headers_sent(headers, Some(token))[i]).0,
            ),
{
    let keep = forwarded(true);
    let copied = headers.filter(keep);
    assert forall|i: int| 0 <= i < copied.len() implies !is_authorization(
        (#[trigger] copied[i]).0,
    ) by {
        headers.lemma_filter_pred(keep, i);
    }
}

/// Every header that is sent, but the token's own, is one of the
/// description's, unchanged.
pub proof fn sent_headers_are_given(headers: Seq<HeaderView>, token: Option<Seq<char>>, i: int)
    requires
        0 <= i < headers.filter(forwarded(token is Some)).len(),
    ensures
        i < headers_sent(headers, token).len(),
        headers.contains(headers_sent(headers, token)[i]),
        is_forwarded(headers_sent(headers, token)[i], token is Some),
{
    let keep = forwarded(token is Some);
    headers.lemma_filter_pred(keep, i);
    let copied = headers.filter(keep);
    headers.lemma_filter_contains_rev(keep, copied[i]);
}

/// A `GET` request never carries a body.
pub proof fn get_has_no_body(
    multipart: bool,
    body: Option<Seq<char>>,
    entries: Option<Seq<EntryView>>,
)
    ensures
        body_sent(Method::Get, multipart, body, entries) == BodyView::Empty,
{
}

/// What a response carried.
#[derive(Debug, PartialEq, Eq)]
pub enum ResponseData {
    /// The body, which is this JSON text.
    Json(String),
    /// A body that is no JSON, kept as it came beside the status code.
    Raw { raw_response: String, status: u16 },
}

/// A `ResponseData` as plain values.
pub enum DataView {
    Json(Seq<char>),
    Raw { raw_response: Seq<char>, status: u16 },
}

impl View for ResponseData {
    type V = DataView;

    open spec fn view(&self) -> DataView {
        match *self {
            ResponseData::Json(text) => DataView::Json(text@),
            ResponseData::Raw { raw_response, status } => DataView::Raw {
                raw_response: raw_response@,
                status,
            },
        }
    }
}

/// What the relay hands back: the status code and the payload.
#[derive(Debug, PartialEq, Eq)]
pub struct ApiResponse {
    pub status: u16,
    pub data: ResponseData,
}

/// The payload for a body: the body itself where it is JSON, else the body
/// and the status code wrapped together.
pub open spec fn payload_of(status: u16, text: Seq<char>, parses: bool) -> DataView {
    if parses {
        DataView::Json(text)
    } else {
        DataView::Raw { raw_response: text, status }
    }
}

/// Wraps a response, given whether its body is JSON.
pub fn wrap_response(status: u16, text: String, parses: bool) -> (r: ApiResponse)
    ensures
        r.status == status,
        r.data@ == payload_of(status, text@, parses),
{
    if parses {
        ApiResponse { status, data: ResponseData::Json(text) }
    } else {
        ApiResponse { status, data: ResponseData::Raw { raw_response: text, status } }
    }
}

/// Reads a response. This never fails: a body that is no JSON is handed back
/// as it came, beside the status code.
pub fn normalize_response(status: u16, text: String) -> (r: ApiResponse)
    ensures
        r.status == status,
        r.data@ == payload_of(status, text@, json_parses(text@)),
        !json_parses(text@) ==> r.data@ == (DataView::Raw { raw_response: text@, status }),
{
    let parses = is_json(text.as_str());
    wrap_response(status, text, parses)
}

/// How the one send of a relay call ended.
#[derive(Debug, PartialEq, Eq)]
pub enum Exchange {
    /// No response came; the text says why.
    Failed(String),
    /// A response came, with this status code and body text.
    Answered(u16, String),
}

/// Ends a relay call: a failed send is an error, and any response is handed
/// back normalized, whatever its status.
pub fn finish_relay(exchange: Exchange) -> (r: Result<ApiResponse, RelayError>)
    ensures
        match exchange {
            Exchange::Failed(why) => r matches Err(RelayError::Transport(w)) && w@ == why@,
            Exchange::Answered(status, text) => r matches Ok(response) && response.status
                == status && response.data@ == payload_of(status, text@, json_parses(text@)),
        },
{
    match exchange {
        Exchange::Failed(why) => Err(RelayError::Transport(why)),
        Exchange::Answered(status, text) => Ok(normalize_response(status, text)),
    }
}

} // verus!
