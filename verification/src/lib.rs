//! Decisions of an outbound-networking layer: how a described HTTP request is
//! forwarded, how an upload is retried and its answer read, what a loopback
//! file responder writes back, and how a scratch-directory wipe is accounted.
//!
//! Every function here works on plain values; sockets, files and timers belong
//! to the caller, which performs the actions these functions decide on.
//!
//! - `relay`: the request relay.
//! - `upload`: the resilient uploader.
//! - `file_server`: the ephemeral file server.
//! - `reclaim`: the scratch reclaimer.
//! - `transport`: the settings of the HTTP client, and status codes.
//! - `json`, `encoding`, `text`: JSON, base64 and text, as the others use them.
//! - `records`: the other records of the command boundary.

pub mod encoding;
pub mod file_server;
pub mod json;
pub mod reclaim;
pub mod records;
pub mod relay;
pub mod text;
pub mod transport;
pub mod upload;
