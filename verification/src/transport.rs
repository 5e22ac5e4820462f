//! How the HTTP client is configured: two timeouts and an optional proxy; and
//! how a status code is written out.
//!
//! The client itself is built by the caller; whether a proxy URL is acceptable
//! is asked of `reqwest` here, before anything is sent.

use crate::text::{decimal_chars, decimal_string};
use vstd::prelude::*;
use vstd::string::*;

verus! {

/// Why `reqwest` refuses `url` as a proxy for all traffic, or `None` when it
/// accepts it.
pub uninterp spec fn proxy_rejection(url: Seq<char>) -> Option<Seq<char>>;

/// Calls `reqwest::Proxy::all`, which parses the URL (trying it once more with
/// `http://` in front where it has no scheme), and keeps the error's text.
/// Trusted: the result is the named answer `proxy_rejection`.
#[verifier::external_body]
pub(crate) fn check_proxy(url: &str) -> (r: Option<String>)
    ensures
        r.deep_view() == proxy_rejection(url@),
{
    reqwest::Proxy::all(url).err().map(|e| e.to_string())
}

/// How `reqwest` writes the status code `code`: the number and its canonical
/// reason phrase, or `None` where `code` is no status code.
pub uninterp spec fn status_text(code: u16) -> Option<Seq<char>>;

/// Calls `reqwest::StatusCode::from_u16`, which takes the codes from 100 to
/// 999, and writes the result with its `Display` form. Trusted: the result
/// is the named answer `status_text`, which is present for those codes alone.
#[verifier::external_body]
pub(crate) fn status_display(code: u16) -> (r: Option<String>)
    ensures
        r.deep_view() == status_text(code),
        r is Some <==> 100 <= code <= 999,
{
    reqwest::StatusCode::from_u16(code).ok().map(|s| s.to_string())
}

/// A status code in the success class, 200 to 299.
pub open spec fn is_success(status: u16) -> bool {
    200 <= status && status < 300
}

/// Tells whether a status code is in the success class.
pub fn in_success_class(status: u16) -> (r: bool)
    ensures
        r == is_success(status),
{
    200 <= status && status < 300
}

/// The label for a status code, given how the client writes it: that text,
/// or the bare number where the client knows no such code.
pub open spec fn label_of(code: u16, written: Option<Seq<char>>) -> Seq<char> {
    match written {
        Some(text) => text,
        None => decimal_chars(code as nat),
    }
}

/// The label under which a status code is reported.
pub open spec fn status_label(code: u16) -> Seq<char> {
    label_of(code, status_text(code))
}

/// Chooses the label for a status code, given how the client writes it.
pub fn label_status(code: u16, written: Option<String>) -> (r: String)
    ensures
        r@ == label_of(code, written.deep_view()),
{
    match written {
        Some(text) => text,
        None => decimal_string(code as u64),
    }
}

/// Writes a status code as it is reported: number and reason phrase.
pub fn describe_status(code: u16) -> (r: String)
    ensures
        r@ == status_label(code),
{
    label_status(code, status_display(code))
}

/// The settings of one HTTP client.
#[derive(Debug, PartialEq, Eq)]
pub struct TransportConfig {
    /// Bound on a whole request, in seconds.
    pub timeout_secs: u64,
    /// Bound on establishing the connection, in seconds.
    pub connect_timeout_secs: u64,
    /// The proxy that all traffic is routed through, if any.
    pub proxy: Option<String>,
}

/// The proxy URL was refused; the text says why.
#[derive(Debug, PartialEq, Eq)]
pub struct TransportConfigError {
    pub reason: String,
}

/// The settings for the given values, unless the proxy was refused.
pub open spec fn config_of(
    timeout_secs: u64,
    connect_timeout_secs: u64,
    proxy: Option<Seq<char>>,
    rejection: Option<Seq<char>>,
    r: Result<TransportConfig, TransportConfigError>,
) -> bool {
    if proxy is Some && rejection is Some {
        r matches Err(e) && e.reason@ == rejection->0
    } else {
        &&& r matches Ok(config)
        &&& config.timeout_secs == timeout_secs
        &&& config.connect_timeout_secs == connect_timeout_secs
        &&& config.proxy.deep_view() == proxy
    }
}

impl TransportConfig {
    /// Request timeout of the relay, the uploader and the downloader.
    pub const LONG_TIMEOUT_SECS: u64 = 480;

    /// Connect timeout of the relay, the uploader and the downloader.
    pub const LONG_CONNECT_TIMEOUT_SECS: u64 = 300;

    /// Request timeout for fetching an image.
    pub const SHORT_TIMEOUT_SECS: u64 = 120;

    /// Connect timeout for fetching an image.
    pub const SHORT_CONNECT_TIMEOUT_SECS: u64 = 60;

    /// The settings without a proxy; these are always accepted.
    pub fn direct(timeout_secs: u64, connect_timeout_secs: u64) -> (r: TransportConfig)
        ensures
            r.timeout_secs == timeout_secs,
            r.connect_timeout_secs == connect_timeout_secs,
            r.proxy is None,
    {
        TransportConfig { timeout_secs, connect_timeout_secs, proxy: None }
    }

    /// The settings, given what the client said of the proxy: an error where a
    /// proxy is supplied and was refused.
    pub fn checked(
        timeout_secs: u64,
        connect_timeout_secs: u64,
        proxy: Option<String>,
        rejection: Option<String>,
    ) -> (r: Result<TransportConfig, TransportConfigError>)
        ensures
            config_of(
                timeout_secs,
                connect_timeout_secs,
                proxy.deep_view(),
                rejection.deep_view(),
                r,
            ),
    {
        if proxy.is_some() {
            if let Some(reason) = rejection {
                return Err(TransportConfigError { reason });
            }
        }
        Ok(TransportConfig { timeout_secs, connect_timeout_secs, proxy })
    }

    /// The settings with an optional proxy; fails where the proxy URL is
    /// malformed.
    pub fn build(timeout_secs: u64, connect_timeout_secs: u64, proxy: Option<String>) -> (r: Result<
        TransportConfig,
        TransportConfigError,
    >)
        ensures
            config_of(
                timeout_secs,
                connect_timeout_secs,
                proxy.deep_view(),
                match proxy {
                    Some(p) => proxy_rejection(p@),
                    None => None,
                },
                r,
            ),
    {
        let rejection = match &proxy {
            Some(p) => check_proxy(p.as_str()),
            None => None,
        };
        TransportConfig::checked(timeout_secs, connect_timeout_secs, proxy, rejection)
    }
}

} // verus!
