//! The resilient uploader: what is sent for a local file, how often it is
//! tried, and how the remote answer is read.
//!
//! The caller probes and reads the file, sends each attempt and sleeps between
//! attempts; every decision about them is taken here.

use crate::json::{find_top_field, json_entries, object_entries, top_field};
use crate::transport::{
    check_proxy, describe_status, in_success_class, is_success, proxy_rejection, status_label,
};
use crate::text::{decimal_chars, decimal_string, has_prefix, same_text, trim_end, trimmed_end};
use vstd::prelude::*;
use vstd::string::*;

verus! {

/// What a caller asks for: the file, where it goes and how the answer reads.
#[derive(Debug, PartialEq, Eq)]
pub struct UploadOptions {
    pub file_path: String,
    pub upload_url: String,
    pub field_name: String,
    /// `"json"` for a JSON answer; anything else, or nothing, for a bare URL.
    pub response_format: Option<String>,
    pub proxy_url: Option<String>,
}

/// What the caller gets back once the upload has ended.
#[derive(Debug, PartialEq, Eq)]
pub struct UploadResponse {
    pub success: bool,
    pub url: Option<String>,
    pub error: Option<String>,
}

/// An `UploadResponse` as plain values.
pub struct UploadResponseView {
    pub success: bool,
    pub url: Option<Seq<char>>,
    pub error: Option<Seq<char>>,
}

impl View for UploadResponse {
    type V = UploadResponseView;

    open spec fn view(&self) -> UploadResponseView {
        UploadResponseView {
            success: self.success,
            url: match self.url {
                Some(u) => Some(u@),
                None => None,
            },
            error: match self.error {
                Some(e) => Some(e@),
                None => None,
            },
        }
    }
}

/// The answer that reports the URL under which the file now stands.
pub open spec fn succeeded(url: Seq<char>) -> UploadResponseView {
    UploadResponseView { success: true, url: Some(url), error: None }
}

/// The answer that reports why the upload did not end with a URL.
pub open spec fn failed(error: Seq<char>) -> UploadResponseView {
    UploadResponseView { success: false, url: None, error: Some(error) }
}

impl UploadResponse {
    /// An answer holds a URL exactly when it reports success, and an error
    /// exactly when it does not.
    pub open spec fn well_formed(&self) -> bool {
        &&& self.success <==> self.url is Some
        &&& !self.success <==> self.error is Some
    }

    /// The successful answer with `url`.
    pub fn with_url(url: String) -> (r: UploadResponse)
        ensures
            r@ == succeeded(url@),
            r.well_formed(),
    {
        UploadResponse { success: true, url: Some(url), error: None }
    }

    /// The failed answer with `error`.
    pub fn with_error(error: String) -> (r: UploadResponse)
        ensures
            r@ == failed(error@),
            r.well_formed(),
    {
        UploadResponse { success: false, url: None, error: Some(error) }
    }
}

/// How a successful remote answer is read.
#[derive(Clone, Copy, Debug, PartialEq, Eq, Structural)]
pub enum ResponseFormat {
    /// The body is the URL itself.
    UrlText,
    /// The body is a JSON object that names the URL.
    Json,
}

/// The format that an option text selects.
pub open spec fn format_of(choice: Option<Seq<char>>) -> ResponseFormat {
    if choice == Some("json"@) {
        ResponseFormat::Json
    } else {
        ResponseFormat::UrlText
    }
}

/// Reads the format option: `"json"` selects `Json`, anything else `UrlText`.
pub fn response_format(choice: &Option<String>) -> (r: ResponseFormat)
    ensures
        r == format_of(
            match *choice {
                Some(c) => Some(c@),
                None => None,
            },
        ),
{
    match choice {
        Some(c) => {
            if same_text(c.as_str(), "json") {
                ResponseFormat::Json
            } else {
                ResponseFormat::UrlText
            }
        },
        None => ResponseFormat::UrlText,
    }
}

/// Index of the last `.` in `name`, or -1 when it holds none.
pub open spec fn last_dot(name: Seq<char>) -> int
    decreases name.len(),
{
    if name.len() == 0 {
        -1
    } else if name.last() == '.' {
        name.len() - 1
    } else {
        last_dot(name.drop_last())
    }
}

/// The extension of a file name: what follows its last `.`, unless the name
/// holds no `.` or only one in front.
pub open spec fn extension_of(name: Seq<char>) -> Option<Seq<char>> {
    let dot = last_dot(name);
    if dot <= 0 {
        None
    } else {
        Some(name.subrange(dot + 1, name.len() as int))
    }
}

/// The media type that the fixed table gives an extension.
pub open spec fn mime_of(extension: Option<Seq<char>>) -> Seq<char> {
    if extension == Some("mp4"@) {
        "video/mp4"@
    } else if extension == Some("webm"@) {
        "video/webm"@
    } else if extension == Some("mov"@) {
        "video/quicktime"@
    } else if extension == Some("avi"@) {
        "video/x-msvideo"@
    } else if extension == Some("png"@) {
        "image/png"@
    } else if extension == Some("jpg"@) || extension == Some("jpeg"@) {
        "image/jpeg"@
    } else if extension == Some("gif"@) {
        "image/gif"@
    } else if extension == Some("webp"@) {
        "image/webp"@
    } else {
        "application/octet-stream"@
    }
}

/// Finds the extension of a file name.
pub fn file_extension(name: &str) -> (r: Option<String>)
    ensures
        r.deep_view() == extension_of(name@),
{
    let n = name.unicode_len();
    let mut i: usize = n;
    proof {
        assert(name@.subrange(0, i as int) =~= name@);
    }
    while i > 0 && name.get_char(i - 1) != '.'
        invariant
            n == name@.len(),
            i <= n,
            last_dot(name@) == last_dot(name@.subrange(0, i as int)),
        decreases i,
    {
        proof {
            assert(name@.subrange(0, i as int).drop_last() =~= name@.subrange(0, i - 1));
        }
        i -= 1;
    }
    if i <= 1 {
        None
    } else {
        Some(name.substring_char(i, n).to_owned())
    }
}

/// The media type of a file, by the extension of its name.
pub fn mime_type_for(name: &str) -> (r: &'static str)
    ensures
        r@ == mime_of(extension_of(name@)),
{
    match file_extension(name) {
        None => "application/octet-stream",
        Some(ext) => {
            let e = ext.as_str();
            if same_text(e, "mp4") {
                "video/mp4"
            } else if same_text(e, "webm") {
                "video/webm"
            } else if same_text(e, "mov") {
                "video/quicktime"
            } else if same_text(e, "avi") {
                "video/x-msvideo"
            } else if same_text(e, "png") {
                "image/png"
            } else if same_text(e, "jpg") || same_text(e, "jpeg") {
                "image/jpeg"
            } else if same_text(e, "gif") {
                "image/gif"
            } else if same_text(e, "webp") {
                "image/webp"
            } else {
                "application/octet-stream"
            }
        },
    }
}

/// The name under which the file is sent when its path ends in none.
pub open spec fn default_file_name() -> Seq<char> {
    "file.mp4"@
}

/// The name under which the file is sent: the last component of its path as
/// the caller found it, or `file.mp4`.
pub fn file_name_or_default(found: Option<String>) -> (r: String)
    ensures
        r@ == match found {
            Some(name) => name@,
            None => default_file_name(),
        },
{
    match found {
        Some(name) => name,
        None => String::from_str("file.mp4"),
    }
}

/// The proxy to route through. An explicit proxy decides alone: it is used
/// unless it is empty, and the environment is not consulted. Without one, the
/// first non-empty of the two environment values is used.
pub open spec fn proxy_choice(
    explicit: Option<Seq<char>>,
    http_proxy: Option<Seq<char>>,
    https_proxy: Option<Seq<char>>,
) -> Option<Seq<char>> {
    match explicit {
        Some(p) => if p.len() > 0 {
            Some(p)
        } else {
            None
        },
        None => if http_proxy is Some && http_proxy->0.len() > 0 {
            http_proxy
        } else if https_proxy is Some && https_proxy->0.len() > 0 {
            https_proxy
        } else {
            None
        },
    }
}

fn non_empty(value: &Option<String>) -> (r: Option<String>)
    ensures
        r.deep_view() == (if value.deep_view() is Some && value.deep_view()->0.len() > 0 {
            value.deep_view()
        } else {
            None
        }),
{
    match value {
        Some(p) => {
            if p.as_str().unicode_len() > 0 {
                Some(p.clone())
            } else {
                None
            }
        },
        None => None,
    }
}

/// Chooses the proxy from the explicit option and the values of the
/// environment variables `HTTP_PROXY` and `HTTPS_PROXY`.
pub fn resolve_proxy(
    explicit: &Option<String>,
    http_proxy: &Option<String>,
    https_proxy: &Option<String>,
) -> (r: Option<String>)
    ensures
        r.deep_view() == proxy_choice(
            explicit.deep_view(),
            http_proxy.deep_view(),
            https_proxy.deep_view(),
        ),
{
    if explicit.is_some() {
        non_empty(explicit)
    } else {
        let first = non_empty(http_proxy);
        if first.is_some() {
            first
        } else {
            non_empty(https_proxy)
        }
    }
}

/// What probing the file's path found, before anything is sent.
#[derive(Debug, PartialEq, Eq)]
pub enum FileProbe {
    /// The path could not be examined; the text says why.
    Unreadable(String),
    /// The path names something that is no regular file.
    NotRegular,
    /// The path names a regular file.
    Regular,
}

/// A local precondition that failed. Nothing was sent, and nothing is retried.
#[derive(Debug, PartialEq, Eq)]
pub enum UploadError {
    /// The file could not be examined or read; the text says why.
    Unreadable(String),
    /// The path names something that is no regular file.
    NotRegular,
    /// The proxy URL was refused; the text says why.
    BadProxy(String),
    /// The media type was refused when the form was built; the text says why.
    BadMime(String),
}

/// The text shown for an `UploadError`.
pub open spec fn upload_error_text(e: UploadError) -> Seq<char> {
    match e {
        UploadError::Unreadable(why) => "无法读取文件: "@ + why@,
        UploadError::NotRegular => "指定的路径不是文件"@,
        UploadError::BadProxy(why) => "代理配置失败: "@ + why@,
        UploadError::BadMime(why) => why@,
    }
}

impl UploadError {
    /// Describes the error for display.
    pub fn message(&self) -> (r: String)
        ensures
            r@ == upload_error_text(*self),
    {
        match self {
            UploadError::Unreadable(why) => {
                let mut s = String::from_str("无法读取文件: ");
                s.append(why.as_str());
                s
            },
            UploadError::NotRegular => String::from_str("指定的路径不是文件"),
            UploadError::BadProxy(why) => {
                let mut s = String::from_str("代理配置失败: ");
                s.append(why.as_str());
                s
            },
            UploadError::BadMime(why) => why.clone(),
        }
    }
}

/// Everything that one attempt sends, fixed before the first attempt.
#[derive(Debug, PartialEq, Eq)]
pub struct UploadPlan {
    pub upload_url: String,
    /// The form field that carries the file.
    pub field_name: String,
    pub file_name: String,
    pub mime_type: String,
    /// Name and value of the constant text field sent beside the file.
    pub companion_name: String,
    pub companion_value: String,
    pub proxy: Option<String>,
    pub format: ResponseFormat,
}

/// An `UploadPlan` as plain values.
pub struct UploadPlanView {
    pub upload_url: Seq<char>,
    pub field_name: Seq<char>,
    pub file_name: Seq<char>,
    pub mime_type: Seq<char>,
    pub companion_name: Seq<char>,
    pub companion_value: Seq<char>,
    pub proxy: Option<Seq<char>>,
    pub format: ResponseFormat,
}

impl View for UploadPlan {
    type V = UploadPlanView;

    open spec fn view(&self) -> UploadPlanView {
        UploadPlanView {
            upload_url: self.upload_url@,
            field_name: self.field_name@,
            file_name: self.file_name@,
            mime_type: self.mime_type@,
            companion_name: self.companion_name@,
            companion_value: self.companion_value@,
            proxy: self.proxy.deep_view(),
            format: self.format,
        }
    }
}

/// The plan for an upload whose file is regular and whose proxy, if any, was
/// accepted.
pub open spec fn plan_of(
    options: UploadOptions,
    found_name: Option<Seq<char>>,
    proxy: Option<Seq<char>>,
) -> UploadPlanView {
    let file_name = match found_name {
        Some(name) => name,
        None => default_file_name(),
    };
    UploadPlanView {
        upload_url: options.upload_url@,
        field_name: options.field_name@,
        file_name,
        mime_type: mime_of(extension_of(file_name)),
        companion_name: "reqtype"@,
        companion_value: "fileupload"@,
        proxy,
        format: format_of(options.response_format.deep_view()),
    }
}

/// Checks the local preconditions and fixes what each attempt sends.
///
/// `proxy` is the proxy already chosen and `rejection` says why the HTTP
/// client refused it, if it did. The file is examined first: an unreadable
/// path or one that is no regular file is an error whatever the proxy is.
pub fn plan_upload(
    options: &UploadOptions,
    probe: FileProbe,
    found_name: Option<String>,
    proxy: Option<String>,
    rejection: Option<String>,
) -> (r: Result<UploadPlan, UploadError>)
    ensures
        match probe {
            FileProbe::Unreadable(why) => r matches Err(UploadError::Unreadable(w)) && w@ == why@,
            FileProbe::NotRegular => r matches Err(UploadError::NotRegular),
            FileProbe::Regular => match rejection {
                Some(why) if proxy is Some => r matches Err(UploadError::BadProxy(w)) && w@
                    == why@,
                _ => r matches Ok(plan) && plan@ == plan_of(
                    *options,
                    found_name.deep_view(),
                    proxy.deep_view(),
                ),
            },
        },
{
    match probe {
        FileProbe::Unreadable(why) => Err(UploadError::Unreadable(why)),
        FileProbe::NotRegular => Err(UploadError::NotRegular),
        FileProbe::Regular => {
            if proxy.is_some() {
                if let Some(why) = rejection {
                    return Err(UploadError::BadProxy(why));
                }
            }
            let file_name = file_name_or_default(found_name);
            let mime_type = String::from_str(mime_type_for(file_name.as_str()));
            Ok(
                UploadPlan {
                    upload_url: options.upload_url.clone(),
                    field_name: options.field_name.clone(),
                    file_name,
                    mime_type,
                    companion_name: String::from_str("reqtype"),
                    companion_value: String::from_str("fileupload"),
                    proxy,
                    format: response_format(&options.response_format),
                },
            )
        },
    }
}

/// Checks the local preconditions of an upload and fixes what each attempt
/// sends.
///
/// `probe` and `found_name` are what the caller found at the file's path, at
/// the time of the call; `http_proxy` and `https_proxy` are the values of the
/// environment variables of those names. The proxy is chosen as
/// `proxy_choice` says and then put to the HTTP client.
pub fn prepare_upload(
    options: &UploadOptions,
    probe: FileProbe,
    found_name: Option<String>,
    http_proxy: &Option<String>,
    https_proxy: &Option<String>,
) -> (r: Result<UploadPlan, UploadError>)
    ensures
        match probe {
            FileProbe::Unreadable(why) => r matches Err(UploadError::Unreadable(w)) && w@ == why@,
            FileProbe::NotRegular => r matches Err(UploadError::NotRegular),
            FileProbe::Regular => {
                let proxy = proxy_choice(
                    options.proxy_url.deep_view(),
                    http_proxy.deep_view(),
                    https_proxy.deep_view(),
                );
                if proxy is Some && proxy_rejection(proxy->0) is Some {
                    r matches Err(UploadError::BadProxy(w)) && w@ == proxy_rejection(proxy->0)->0
                } else {
                    r matches Ok(plan) && plan@ == plan_of(*options, found_name.deep_view(), proxy)
                }
            },
        },
{
    let proxy = resolve_proxy(&options.proxy_url, http_proxy, https_proxy);
    let rejection = match &proxy {
        Some(p) => check_proxy(p.as_str()),
        None => None,
    };
    plan_upload(options, probe, found_name, proxy, rejection)
}

/// The number of attempts after which an upload is given up.
pub const MAX_ATTEMPTS: u32 = 3;

/// The seconds to wait before the next attempt when no response came.
pub const RETRY_DELAY_SECS: u64 = 3;

/// How one attempt ended.
#[derive(Debug, PartialEq, Eq)]
pub enum SendOutcome {
    /// No response was received; the text says why.
    NoResponse(String),
    /// A response came, with this status code and body text.
    Response(u16, String),
}

/// A `SendOutcome` as plain values.
pub enum OutcomeView {
    NoResponse(Seq<char>),
    Response(u16, Seq<char>),
}

impl View for SendOutcome {
    type V = OutcomeView;

    open spec fn view(&self) -> OutcomeView {
        match *self {
            SendOutcome::NoResponse(why) => OutcomeView::NoResponse(why@),
            SendOutcome::Response(status, body) => OutcomeView::Response(status, body@),
        }
    }
}

/// What the caller does after an attempt.
#[derive(Debug, PartialEq, Eq)]
pub enum NextAction {
    /// Send the next attempt at once.
    Send,
    /// Sleep for this many seconds, then send the next attempt.
    WaitThenSend(u64),
    /// Stop and hand this answer back.
    Finish(UploadResponse),
}

/// A `NextAction` as plain values.
pub enum ActionView {
    Send,
    WaitThenSend(u64),
    Finish(UploadResponseView),
}

impl View for NextAction {
    type V = ActionView;

    open spec fn view(&self) -> ActionView {
        match *self {
            NextAction::Send => ActionView::Send,
            NextAction::WaitThenSend(seconds) => ActionView::WaitThenSend(seconds),
            NextAction::Finish(r) => ActionView::Finish(r@),
        }
    }
}

/// The error recorded when an attempt got no response.
pub open spec fn no_response_text(attempt: nat, why: Seq<char>) -> Seq<char> {
    "上传请求失败 (尝试 "@ + decimal_chars(attempt) + "/"@ + decimal_chars(
        MAX_ATTEMPTS as nat,
    ) + "): "@ + why
}

/// The error recorded when the response had a status outside the success
/// class; `label` is the status as it is reported.
pub open spec fn bad_status_text(label: Seq<char>, body: Seq<char>) -> Seq<char> {
    "上传失败 ("@ + label + "): "@ + body
}

/// The error given when a JSON answer names no URL.
pub open spec fn no_url_text(body: Seq<char>) -> Seq<char> {
    "JSON 响应中未找到 URL: "@ + body
}

/// The URL that a JSON answer names: the `url` field where the object has one,
/// else the `data` field; the field chosen must hold a string.
pub open spec fn named_url(
    url_field: Option<Option<Seq<char>>>,
    data_field: Option<Option<Seq<char>>>,
) -> Option<Seq<char>> {
    match url_field {
        Some(value) => value,
        None => match data_field {
            Some(value) => value,
            None => None,
        },
    }
}

/// Whether a body read as bare text is a URL.
pub open spec fn looks_like_url(body: Seq<char>) -> bool {
    "https://"@.is_prefix_of(body) || "http://"@.is_prefix_of(body)
}

/// How a response of the success class is read. Either way the reading is
/// final: a body that holds no URL is a failure that is not retried.
pub open spec fn answer_of(
    format: ResponseFormat,
    body: Seq<char>,
    url_field: Option<Option<Seq<char>>>,
    data_field: Option<Option<Seq<char>>>,
) -> UploadResponseView {
    match format {
        ResponseFormat::Json => match named_url(url_field, data_field) {
            Some(url) => succeeded(url),
            None => failed(no_url_text(body)),
        },
        ResponseFormat::UrlText => if looks_like_url(body) {
            succeeded(trim_end(body))
        } else {
            failed(body)
        },
    }
}

/// Reads a response of the success class, given what the fields `url` and
/// `data` of its body hold when it is read as JSON.
pub fn read_answer(
    format: ResponseFormat,
    body: &str,
    url_field: Option<Option<String>>,
    data_field: Option<Option<String>>,
) -> (r: UploadResponse)
    ensures
        r@ == answer_of(format, body@, url_field.deep_view(), data_field.deep_view()),
        r.well_formed(),
{
    match format {
        ResponseFormat::Json => {
            let named = match url_field {
                Some(value) => value,
                None => match data_field {
                    Some(value) => value,
                    None => None,
                },
            };
            match named {
                Some(url) => UploadResponse::with_url(url),
                None => {
                    let mut error = String::from_str("JSON 响应中未找到 URL: ");
                    error.append(body);
                    UploadResponse::with_error(error)
                },
            }
        },
        ResponseFormat::UrlText => {
            if has_prefix(body, "https://") || has_prefix(body, "http://") {
                UploadResponse::with_url(trimmed_end(body))
            } else {
                UploadResponse::with_error(body.to_owned())
            }
        },
    }
}

/// Reads a response of the success class in the given format.
pub fn interpret_answer(format: ResponseFormat, body: &str) -> (r: UploadResponse)
    ensures
        r@ == answer_of(
            format,
            body@,
            top_field(json_entries(body@), "url"@),
            top_field(json_entries(body@), "data"@),
        ),
        r.well_formed(),
{
    match format {
        ResponseFormat::Json => {
            let entries = object_entries(body);
            let url_field = find_top_field(&entries, "url");
            let data_field = find_top_field(&entries, "data");
            read_answer(format, body, url_field, data_field)
        },
        ResponseFormat::UrlText => read_answer(format, body, None, None),
    }
}

/// What follows attempt number `attempt` (counted from 1), given how it ended,
/// what a response of the success class reads as, and the label of any other
/// status.
pub open spec fn decision(
    attempt: nat,
    outcome: OutcomeView,
    answer: UploadResponseView,
    label: Seq<char>,
) -> ActionView {
    match outcome {
        OutcomeView::NoResponse(why) => if attempt < MAX_ATTEMPTS {
            ActionView::WaitThenSend(RETRY_DELAY_SECS)
        } else {
            ActionView::Finish(failed(no_response_text(attempt, why)))
        },
        OutcomeView::Response(status, body) => if is_success(status) {
            ActionView::Finish(answer)
        } else if attempt < MAX_ATTEMPTS {
            ActionView::Send
        } else {
            ActionView::Finish(failed(bad_status_text(label, body)))
        },
    }
}

/// The status of a response; 0 where none came.
pub open spec fn status_of(outcome: OutcomeView) -> u16 {
    match outcome {
        OutcomeView::NoResponse(_) => 0,
        OutcomeView::Response(status, _) => status,
    }
}

/// The body of a response; empty where none came.
pub open spec fn body_of(outcome: OutcomeView) -> Seq<char> {
    match outcome {
        OutcomeView::NoResponse(_) => Seq::empty(),
        OutcomeView::Response(_, body) => body,
    }
}

/// What follows attempt number `attempt`, with the body read by `serde_json`
/// where the format asks for it.
pub open spec fn step(attempt: nat, outcome: OutcomeView, format: ResponseFormat) -> ActionView {
    let body = body_of(outcome);
    decision(
        attempt,
        outcome,
        answer_of(
            format,
            body,
            top_field(json_entries(body), "url"@),
            top_field(json_entries(body), "data"@),
        ),
        status_label(status_of(outcome)),
    )
}

fn no_response_error(attempt: u32, why: &str) -> (r: String)
    ensures
        r@ == no_response_text(attempt as nat, why@),
{
    let mut s = String::from_str("上传请求失败 (尝试 ");
    s.append(decimal_string(attempt as u64).as_str());
    s.append("/");
    s.append(decimal_string(MAX_ATTEMPTS as u64).as_str());
    s.append("): ");
    s.append(why);
    s
}

fn bad_status_error(label: &str, body: &str) -> (r: String)
    ensures
        r@ == bad_status_text(label@, body@),
{
    let mut s = String::from_str("上传失败 (");
    s.append(label);
    s.append("): ");
    s.append(body);
    s
}

/// Decides what follows attempt number `attempt` (counted from 1).
///
/// A response of the success class ends the upload with its reading. Any
/// other outcome leads to the next attempt, after a wait when no response
/// came, until `MAX_ATTEMPTS` attempts were made; then the upload ends with
/// the error of the last attempt.
pub fn next_action(attempt: u32, outcome: &SendOutcome, format: ResponseFormat) -> (r: NextAction)
    ensures
        r@ == step(attempt as nat, outcome@, format),
        r matches NextAction::Finish(answer) ==> answer.well_formed(),
{
    match outcome {
        SendOutcome::NoResponse(why) => {
            if attempt < MAX_ATTEMPTS {
                NextAction::WaitThenSend(RETRY_DELAY_SECS)
            } else {
                NextAction::Finish(UploadResponse::with_error(no_response_error(attempt, why.as_str())))
            }
        },
        SendOutcome::Response(status, body) => {
            if in_success_class(*status) {
                NextAction::Finish(interpret_answer(format, body.as_str()))
            } else if attempt < MAX_ATTEMPTS {
                NextAction::Send
            } else {
                let label = describe_status(*status);
                NextAction::Finish(
                    UploadResponse::with_error(bad_status_error(label.as_str(), body.as_str())),
                )
            }
        },
    }
}

/// How a run of attempts against a scripted transport ended.
#[derive(Debug, PartialEq, Eq)]
pub struct UploadRun {
    /// The attempts that were sent.
    pub sends: u32,
    /// The waits that were made between attempts.
    pub waits: u32,
    /// The answer, or nothing where the script ended before the upload did.
    pub response: Option<UploadResponse>,
}

/// An `UploadRun` as plain values.
pub struct UploadRunView {
    pub sends: nat,
    pub waits: nat,
    pub response: Option<UploadResponseView>,
}

impl View for UploadRun {
    type V = UploadRunView;

    open spec fn view(&self) -> UploadRunView {
        UploadRunView {
            sends: self.sends as nat,
            waits: self.waits as nat,
            response: match self.response {
                Some(r) => Some(r@),
                None => None,
            },
        }
    }
}

/// The run that has made `sent` attempts and `waits` waits and whose further
/// attempts end as `outcomes[sent..]` say.
pub open spec fn run_from(
    outcomes: Seq<OutcomeView>,
    format: ResponseFormat,
    sent: nat,
    waits: nat,
) -> UploadRunView
    decreases outcomes.len() - sent,
{
    if sent >= outcomes.len() {
        UploadRunView { sends: sent, waits, response: None }
    } else {
        match step(sent + 1, outcomes[sent as int], format) {
            ActionView::Finish(answer) => UploadRunView {
                sends: sent + 1,
                waits,
                response: Some(answer),
            },
            ActionView::Send => run_from(outcomes, format, sent + 1, waits),
            ActionView::WaitThenSend(_) => run_from(outcomes, format, sent + 1, waits + 1),
        }
    }
}

/// The whole run of an upload whose attempts end as `outcomes` say, one after
/// the other.
pub open spec fn run_of(outcomes: Seq<OutcomeView>, format: ResponseFormat) -> UploadRunView {
    run_from(outcomes, format, 0, 0)
}

/// The outcomes of a script as plain values.
pub open spec fn outcome_views(outcomes: Seq<SendOutcome>) -> Seq<OutcomeView> {
    outcomes.map_values(|o: SendOutcome| o@)
}

/// However the attempts end, at most `MAX_ATTEMPTS` are sent, with a wait only
/// between two attempts; and a script of `MAX_ATTEMPTS` outcomes or more
/// always ends the upload.
pub proof fn run_is_bounded(outcomes: Seq<OutcomeView>, format: ResponseFormat)
    ensures
        run_of(outcomes, format).sends <= MAX_ATTEMPTS,
        run_of(outcomes, format).sends <= outcomes.len(),
        run_of(outcomes, format).waits < MAX_ATTEMPTS,
        run_of(outcomes, format).waits <= run_of(outcomes, format).sends,
        run_of(outcomes, format).response is Some ==> run_of(outcomes, format).waits < run_of(
            outcomes,
            format,
        ).sends,
        outcomes.len() >= MAX_ATTEMPTS ==> run_of(outcomes, format).response is Some,
{
    reveal_with_fuel(run_from, 5);
}

/// The attempts among the first `n` that got no response.
pub open spec fn lost_among(outcomes: Seq<OutcomeView>, n: nat) -> nat
    decreases n,
{
    if n == 0 || n > outcomes.len() {
        0
    } else {
        lost_among(outcomes, (n - 1) as nat) + if outcomes[n - 1] is NoResponse {
            1nat
        } else {
            0nat
        }
    }
}

/// Whether attempt number `index + 1` got a response of the success class.
pub open spec fn succeeds_at(outcomes: Seq<OutcomeView>, index: int) -> bool {
    &&& 0 <= index < outcomes.len()
    &&& is_success(status_of(outcomes[index]))
    &&& outcomes[index] is Response
}

/// An upload ends at the first attempt that gets a response of the success
/// class, if that is one of the first `MAX_ATTEMPTS`: it has then sent that
/// many attempts, has waited once for every attempt before it that got no
/// response, and answers with the reading of that response.
pub proof fn run_ends_at_first_success(
    outcomes: Seq<OutcomeView>,
    format: ResponseFormat,
    index: int,
)
    requires
        0 <= index < MAX_ATTEMPTS,
        succeeds_at(outcomes, index),
        forall|i: int| 0 <= i < index ==> !succeeds_at(outcomes, i),
    ensures
        run_of(outcomes, format).sends == index + 1,
        run_of(outcomes, format).waits == lost_among(outcomes, index as nat),
        run_of(outcomes, format).response == Some(
            answer_of(
                format,
                body_of(outcomes[index]),
                top_field(json_entries(body_of(outcomes[index])), "url"@),
                top_field(json_entries(body_of(outcomes[index])), "data"@),
            ),
        ),
{
    reveal_with_fuel(run_from, 5);
    reveal_with_fuel(lost_among, 5);
    if index >= 1 {
        assert(!succeeds_at(outcomes, 0));
    }
    if index >= 2 {
        assert(!succeeds_at(outcomes, 1));
    }
}

/// The error that ends an upload when its last attempt ended as `outcome`
/// says, without a response of the success class.
pub open spec fn last_error_of(outcome: OutcomeView) -> Seq<char> {
    match outcome {
        OutcomeView::NoResponse(why) => no_response_text(MAX_ATTEMPTS as nat, why),
        OutcomeView::Response(status, body) => bad_status_text(status_label(status), body),
    }
}

/// An upload none of whose `MAX_ATTEMPTS` attempts gets a response of the
/// success class sends them all, waits after each of the first two that got
/// no response, and fails with the error of the last attempt.
pub proof fn run_gives_up_with_last_error(outcomes: Seq<OutcomeView>, format: ResponseFormat)
    requires
        outcomes.len() >= MAX_ATTEMPTS,
        forall|i: int| 0 <= i < MAX_ATTEMPTS ==> !succeeds_at(outcomes, i),
    ensures
        run_of(outcomes, format).sends == MAX_ATTEMPTS,
        run_of(outcomes, format).waits == lost_among(outcomes, (MAX_ATTEMPTS - 1) as nat),
        run_of(outcomes, format).response == Some(
            failed(last_error_of(outcomes[MAX_ATTEMPTS - 1])),
        ),
{
    reveal_with_fuel(run_from, 5);
    reveal_with_fuel(lost_among, 5);
    assert(!succeeds_at(outcomes, 0));
    assert(!succeeds_at(outcomes, 1));
    assert(!succeeds_at(outcomes, 2));
}

/// An upload that ends with an answer ends with one that holds a URL exactly
/// when it reports success, and an error exactly when it does not.
pub proof fn run_answer_is_well_formed(outcomes: Seq<OutcomeView>, format: ResponseFormat)
    ensures
        match run_of(outcomes, format).response {
            Some(answer) => {
                &&& answer.success <==> answer.url is Some
                &&& !answer.success <==> answer.error is Some
            },
            None => true,
        },
{
    reveal_with_fuel(run_from, 5);
}

/// Runs an upload against a script: attempt number `i` ends as
/// `outcomes[i - 1]` says. Counts the attempts and the waits, and stops at
/// the first answer.
pub fn replay(outcomes: &Vec<SendOutcome>, format: ResponseFormat) -> (r: UploadRun)
    ensures
        r@ == run_of(outcome_views(outcomes@), format),
        r.response matches Some(answer) ==> answer.well_formed(),
{
    let mut sent: u32 = 0;
    let mut waits: u32 = 0;
    while sent < MAX_ATTEMPTS && (sent as usize) < outcomes.len()
        invariant
            sent < MAX_ATTEMPTS,
            waits <= sent,
            run_of(outcome_views(outcomes@), format) == run_from(
                outcome_views(outcomes@),
                format,
                sent as nat,
                waits as nat,
            ),
        decreases MAX_ATTEMPTS - sent,
    {
        let action = next_action(sent + 1, &outcomes[sent as usize], format);
        match action {
            NextAction::Finish(answer) => {
                return UploadRun { sends: sent + 1, waits, response: Some(answer) };
            },
            NextAction::Send => {
                sent += 1;
            },
            NextAction::WaitThenSend(_) => {
                sent += 1;
                waits += 1;
            },
        }
    }
    UploadRun { sends: sent, waits, response: None }
}

} // verus!
