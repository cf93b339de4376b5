//! Client-side core of the Horatio liveness protocol.
//!
//! A device reports that it is alive by sending one `POST {base_url}/ping`
//! with a small JSON body, and Horatio answers with the moment at which it
//! last saw the device. This crate holds everything about that exchange that
//! can be decided without touching the network: which request goes out, and
//! what the caller gets back for each thing the transport can report. The
//! transport itself lives with the caller.

pub mod exchange;
pub mod record;
pub mod status;
pub mod wire;

pub use exchange::{after_body, after_send, Step};
pub use record::{ApiError, NewPing, Ping, Timestamp};
pub use status::is_success;
pub use wire::{endpoint, request, Request};
