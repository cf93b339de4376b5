//! The records that travel between a device and Horatio, and the errors a
//! call can end in.

use vstd::prelude::*;

verus! {

/// Makes `reqwest::Error` known to the verifier as a type without contents.
/// Values of it are carried from the transport to the caller and never
/// looked into.
#[verifier::external_type_specification]
#[verifier::external_body]
pub struct ExTransportFailure(reqwest::Error);

/// An instant on the UTC time line: whole seconds since
/// 1970-01-01T00:00:00Z, leap seconds not counted, and the nanoseconds into
/// that second. A nanosecond count of 1_000_000_000 or more stands for a
/// moment inside a leap second.
#[derive(Clone, Copy, Debug, PartialEq, Eq)]
pub struct Timestamp {
    pub secs: i64,
    pub nanos: u32,
}

/// What a device sends to Horatio.
#[derive(Debug, PartialEq)]
pub struct NewPing {
    /// The identifier of the device.
    pub id: String,
    /// The category of the ping; on the wire this field is called `type`.
    pub type_: String,
}

/// A `NewPing` as mathematics sees it.
pub struct NewPingView {
    pub id: Seq<char>,
    pub type_: Seq<char>,
}

impl View for NewPing {
    type V = NewPingView;

    open spec fn view(&self) -> NewPingView {
        NewPingView { id: self.id@, type_: self.type_@ }
    }
}

/// The category under which this client reports.
pub open spec fn spec_category() -> Seq<char> {
    "resin"@
}

/// The ping that the device `id` sends.
pub open spec fn spec_new_ping(id: Seq<char>) -> NewPingView {
    NewPingView { id, type_: spec_category() }
}

impl NewPing {
    /// Builds the ping that the device `id` sends: its identifier, and the
    /// category `resin`.
    pub fn for_device(id: &String) -> (ping: NewPing)
        ensures
            ping@ == spec_new_ping(id@),
    {
        NewPing { id: id.clone(), type_: String::from_str("resin") }
    }
}

/// What Horatio answers: when it last saw the device.
#[derive(Debug, PartialEq)]
pub struct Ping {
    /// The identifier of the device.
    pub id: String,
    /// When the device last phoned home.
    pub last_seen: Timestamp,
    /// The category of the ping; on the wire this field is called `type`.
    pub type_: String,
}

/// A `Ping` as mathematics sees it.
pub struct PingView {
    pub id: Seq<char>,
    pub last_seen: Timestamp,
    pub type_: Seq<char>,
}

impl View for Ping {
    type V = PingView;

    open spec fn view(&self) -> PingView {
        PingView { id: self.id@, last_seen: self.last_seen, type_: self.type_@ }
    }
}

/// How a call can fail.
#[derive(Debug)]
pub enum ApiError {
    /// The exchange itself broke down: the request could not be delivered, or
    /// the body of a successful response could not be read as a `Ping`.
    Reqwest(reqwest::Error),
    /// Horatio answered with a status outside the success class; the status
    /// is kept as the server sent it.
    Server(u16),
}

} // verus!
