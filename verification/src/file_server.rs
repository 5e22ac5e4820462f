//! The ephemeral file server: a loopback responder that answers every
//! connection with the whole of one fixed file.
//!
//! The caller binds, accepts and reads; what is written back is decided here.
//! The file is read anew for every connection, so an answer always carries
//! what the file held at that moment.

use crate::text::{decimal_chars, decimal_string};
use vstd::prelude::*;
use vstd::string::*;
use vstd::utf8::encode_utf8;

verus! {

/// The most bytes that are read of a request before it is answered.
pub const REQUEST_BUFFER_BYTES: usize = 1024;

/// A file exposed on a loopback port, for as long as the process lives.
#[derive(Debug, PartialEq, Eq)]
pub struct FileServerBinding {
    pub bind_port: u16,
    pub served_path: String,
}

/// The listener could not be bound; the text says why.
#[derive(Debug, PartialEq, Eq)]
pub struct BindError {
    pub reason: String,
}

/// The address that the listener binds.
pub open spec fn bind_address_text(port: u16) -> Seq<char> {
    "127.0.0.1:"@ + decimal_chars(port as nat)
}

/// The URL under which the file is reached.
pub open spec fn server_url_text(port: u16) -> Seq<char> {
    "http://127.0.0.1:"@ + decimal_chars(port as nat)
}

/// The text shown for a `BindError`.
pub open spec fn bind_error_text(reason: Seq<char>) -> Seq<char> {
    "无法启动服务器: "@ + reason
}

/// The head of the answer that carries a file of `len` bytes.
pub open spec fn ok_head(len: nat) -> Seq<char> {
    "HTTP/1.1 200 OK\r\nContent-Type: video/mp4\r\nContent-Length: "@ + decimal_chars(len)
        + "\r\nAccess-Control-Allow-Origin: *\r\n\r\n"@
}

/// The answer where the file cannot be read.
pub open spec fn not_found_head() -> Seq<char> {
    "HTTP/1.1 404 Not Found\r\n\r\n"@
}

/// The bytes written back on a connection: the head and then the whole
/// content where the file was read, and a bare 404 where it was not.
pub open spec fn response_bytes(content: Option<Seq<u8>>) -> Seq<u8> {
    match content {
        Some(bytes) => encode_utf8(ok_head(bytes.len())) + bytes,
        None => encode_utf8(not_found_head()),
    }
}

impl BindError {
    /// Describes the error for display.
    pub fn message(&self) -> (r: String)
        ensures
            r@ == bind_error_text(self.reason@),
    {
        let mut s = String::from_str("无法启动服务器: ");
        s.append(self.reason.as_str());
        s
    }
}

impl FileServerBinding {
    /// The loopback address to bind.
    pub fn bind_address(&self) -> (r: String)
        ensures
            r@ == bind_address_text(self.bind_port),
    {
        let mut s = String::from_str("127.0.0.1:");
        s.append(decimal_string(self.bind_port as u64).as_str());
        s
    }

    /// The URL handed to whoever asked for the file to be served.
    pub fn url(&self) -> (r: String)
        ensures
            r@ == server_url_text(self.bind_port),
    {
        let mut s = String::from_str("http://127.0.0.1:");
        s.append(decimal_string(self.bind_port as u64).as_str());
        s
    }

    /// Ends the attempt to bind: the URL where the listener stands, and the
    /// error where the port could not be had.
    pub fn bound(&self, failure: Option<String>) -> (r: Result<String, BindError>)
        ensures
            match failure {
                Some(why) => r matches Err(e) && e.reason@ == why@,
                None => r matches Ok(url) && url@ == server_url_text(self.bind_port),
            },
    {
        match failure {
            Some(reason) => Err(BindError { reason }),
            None => Ok(self.url()),
        }
    }
}

/// Whether a connection is answered at all: only where reading the request
/// gave at least one byte. What the request says is never looked at.
pub fn should_respond(read: Option<usize>) -> (r: bool)
    ensures
        r == (read matches Some(n) && n > 0),
{
    match read {
        Some(n) => n > 0,
        None => false,
    }
}

/// Builds the bytes written back on a connection from what reading the file
/// gave just now.
pub fn respond(content: Option<Vec<u8>>) -> (r: Vec<u8>)
    ensures
        r@ == response_bytes(content.deep_view()),
{
    match content {
        Some(bytes) => {
            let mut bytes = bytes;
            let mut head = String::from_str(
                "HTTP/1.1 200 OK\r\nContent-Type: video/mp4\r\nContent-Length: ",
            );
            head.append(decimal_string(bytes.len() as u64).as_str());
            head.append("\r\nAccess-Control-Allow-Origin: *\r\n\r\n");
            let mut out = head.as_str().as_bytes_vec();
            out.append(&mut bytes);
            out
        },
        None => "HTTP/1.1 404 Not Found\r\n\r\n".as_bytes_vec(),
    }
}

/// The answer for a file ends with the file's bytes, unchanged, after a head
/// that announces their number; so two answers for the same content are the
/// same bytes.
pub proof fn answer_carries_content(content: Seq<u8>)
    ensures
        response_bytes(Some(content)).len() == encode_utf8(ok_head(content.len())).len()
            + content.len(),
        response_bytes(Some(content)).subrange(
            encode_utf8(ok_head(content.len())).len() as int,
            response_bytes(Some(content)).len() as int,
        ) == content,
        response_bytes(Some(content)).subrange(
            0,
            encode_utf8(ok_head(content.len())).len() as int,
        ) == encode_utf8(ok_head(content.len())),
{
    let head = encode_utf8(ok_head(content.len()));
    let all = response_bytes(Some(content));
}

} // verus!
