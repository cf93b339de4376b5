//! What a call makes of the things its transport reports.
//!
//! A call is one exchange. First the request is sent, and the transport
//! reports either that this failed or the status of the response. Only after
//! a status of the success class is the body read, and the transport reports
//! either that this failed or the `Ping` it decoded. Each report is answered
//! here with what happens next. The answer depends on the report alone:
//! nothing is kept from one call to the next.

use vstd::prelude::*;
use crate::record::{spec_new_ping, ApiError, NewPingView, Ping};
use crate::status::{is_success, spec_is_success};
use crate::wire::{spec_body, spec_request};

verus! {

/// What follows the sending of the request.
#[derive(Debug)]
pub enum Step {
    /// The response is a success: read its body and decode it.
    ReadBody,
    /// The call is over and returns this error; the body, if there is one,
    /// is left unread.
    Finish(ApiError),
}

/// What follows when the transport reports `sent`: the failure to send, or
/// the status of the response.
pub open spec fn spec_after_send(sent: Result<u16, reqwest::Error>) -> Step {
    match sent {
        Err(failure) => Step::Finish(ApiError::Reqwest(failure)),
        Ok(status) => if spec_is_success(status) {
            Step::ReadBody
        } else {
            Step::Finish(ApiError::Server(status))
        },
    }
}

/// What the call returns when the transport reports `decoded`: the failure
/// to read the body as a `Ping`, or the `Ping`.
pub open spec fn spec_after_body(decoded: Result<Ping, reqwest::Error>) -> Result<Ping, ApiError> {
    match decoded {
        Err(failure) => Err(ApiError::Reqwest(failure)),
        Ok(ping) => Ok(ping),
    }
}

/// What a whole call returns. `sent` is what the transport reports of the
/// sending, `decoded` what it would report of the body if asked to read it.
pub open spec fn spec_outcome(
    sent: Result<u16, reqwest::Error>,
    decoded: Result<Ping, reqwest::Error>,
) -> Result<Ping, ApiError> {
    match spec_after_send(sent) {
        Step::ReadBody => spec_after_body(decoded),
        Step::Finish(error) => Err(error),
    }
}

/// Decides what follows the sending of the request. A failure to send ends
/// the call with that failure. A status from 200 to 299 asks for the body.
/// Any other status ends the call with that status.
pub fn after_send(sent: Result<u16, reqwest::Error>) -> (step: Step)
    ensures
        step == spec_after_send(sent),
{
    match sent {
        Err(failure) => Step::Finish(ApiError::Reqwest(failure)),
        Ok(status) => {
            if is_success(status) {
                Step::ReadBody
            } else {
                Step::Finish(ApiError::Server(status))
            }
        },
    }
}

/// Decides what the call returns once the body has been dealt with: the
/// decoded `Ping` as it is, or the failure to decode it.
pub fn after_body(decoded: Result<Ping, reqwest::Error>) -> (outcome: Result<Ping, ApiError>)
    ensures
        outcome == spec_after_body(decoded),
{
    match decoded {
        Err(failure) => Err(ApiError::Reqwest(failure)),
        Ok(ping) => Ok(ping),
    }
}

/// A call returns the `Ping` `ping` on one kind of exchange only: the request
/// was sent, the status was of the success class, and the body was decoded
/// to `ping`. It returns the status `code` as an error of the server exactly
/// when that status came and is outside the success class. It returns
/// `failure` as a transport error exactly when the sending failed with it or,
/// after a status of the success class, the decoding did.
pub proof fn lemma_outcome_by_cases(
    sent: Result<u16, reqwest::Error>,
    decoded: Result<Ping, reqwest::Error>,
    ping: Ping,
    code: u16,
    failure: reqwest::Error,
)
    ensures
        spec_outcome(sent, decoded) == Ok::<Ping, ApiError>(ping) <==> {
            &&& sent matches Ok(status) && spec_is_success(status)
            &&& decoded == Ok::<Ping, reqwest::Error>(ping)
        },
        spec_outcome(sent, decoded) == Err::<Ping, ApiError>(ApiError::Server(code)) <==> {
            &&& sent == Ok::<u16, reqwest::Error>(code)
            &&& !spec_is_success(code)
        },
        spec_outcome(sent, decoded) == Err::<Ping, ApiError>(ApiError::Reqwest(failure)) <==> {
            ||| sent == Err::<u16, reqwest::Error>(failure)
            ||| {
                &&& sent matches Ok(status) && spec_is_success(status)
                &&& decoded == Err::<Ping, reqwest::Error>(failure)
            }
        },
{
}

/// After a status of the success class and a body that decodes, the call
/// returns the decoded `Ping` untouched, the instant in it included. Where
/// Horatio has answered with the identifier and the category that the
/// request carried, the caller finds in the `Ping` the identifier it passed
/// and the category `resin`, and writing the two fields out again gives the
/// body that was sent.
pub proof fn lemma_success_round_trips(
    base_url: Seq<char>,
    device_id: Seq<char>,
    status: u16,
    reply: Ping,
)
    requires
        spec_is_success(status),
        reply@.id == spec_new_ping(device_id).id,
        reply@.type_ == spec_new_ping(device_id).type_,
    ensures
        spec_after_send(Ok(status)) == Step::ReadBody,
        spec_outcome(Ok(status), Ok(reply)) matches Ok(got) && {
            &&& got == reply
            &&& got@.id == device_id
            &&& got@.type_ == "resin"@
            &&& spec_body(NewPingView { id: got@.id, type_: got@.type_ }) == spec_request(
                base_url,
                device_id,
            ).body
        },
{
}

/// A status outside the success class ends the call with that very status,
/// whatever the body holds: the body is never asked for.
pub proof fn lemma_refusal_keeps_status(status: u16, decoded: Result<Ping, reqwest::Error>)
    requires
        !spec_is_success(status),
    ensures
        spec_after_send(Ok(status)) == Step::Finish(ApiError::Server(status)),
        spec_outcome(Ok(status), decoded) == Err::<Ping, ApiError>(ApiError::Server(status)),
{
}

/// A failure to send ends the call at once, with that failure. Nothing is
/// sent a second time and no body is asked for.
pub proof fn lemma_send_failure_is_final(
    failure: reqwest::Error,
    decoded: Result<Ping, reqwest::Error>,
)
    ensures
        spec_after_send(Err(failure)) == Step::Finish(ApiError::Reqwest(failure)),
        spec_outcome(Err(failure), decoded) == Err::<Ping, ApiError>(ApiError::Reqwest(failure)),
{
}

/// A body that cannot be decoded, under a status of the success class, ends
/// the call with the failure to decode: no `Ping` is returned, not even one
/// filled in part.
pub proof fn lemma_undecodable_body_is_transport_error(status: u16, failure: reqwest::Error)
    requires
        spec_is_success(status),
    ensures
        spec_after_body(Err(failure)) == Err::<Ping, ApiError>(ApiError::Reqwest(failure)),
        spec_outcome(Ok(status), Err(failure)) == Err::<Ping, ApiError>(ApiError::Reqwest(failure)),
{
}

} // verus!
