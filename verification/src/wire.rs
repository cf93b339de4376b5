//! What goes out on the wire: the address of the ping endpoint and the JSON
//! body of a ping.

use vstd::prelude::*;
use crate::record::{spec_category, spec_new_ping, NewPing, NewPingView};

verus! {

/// Makes `serde_json::Error` known to the verifier as a type without
/// contents. It is the error type in the signature of
/// `serde_json::to_string`.
#[verifier::external_type_specification]
#[verifier::external_body]
pub struct ExJsonError(serde_json::Error);

/// The JSON string literal that `serde_json::to_string` returns for the
/// string slice `text`: the text between double quotes, with the characters
/// that JSON cannot hold bare replaced by escape sequences.
pub uninterp spec fn json_string(text: Seq<char>) -> Seq<char>;

/// Whether `serde_json` writes the character `c` as it is. It escapes the
/// control characters below U+0020, the double quote and the backslash, and
/// nothing else.
pub open spec fn is_plain_char(c: char) -> bool {
    c as u32 >= 0x20 && c != '"' && c != '\\'
}

/// Whether `text` holds no character that `serde_json` escapes.
pub open spec fn is_plain(text: Seq<char>) -> bool {
    forall|i: int| 0 <= i < text.len() ==> is_plain_char(#[trigger] text[i])
}

/// `text` between two double quotes.
pub open spec fn quoted(text: Seq<char>) -> Seq<char> {
    seq!['"'] + text + seq!['"']
}

/// Calls `serde_json::to_string` on a string slice. The result is the JSON
/// string literal for `text`, named `json_string` here; for a text without
/// any character that needs an escape, that is the text between two double
/// quotes. The call cannot fail: a string slice is written straight into a
/// buffer in memory, there is no map key and no `Serialize` impl that could
/// refuse.
#[verifier::external_body]
fn to_json_string(text: &str) -> (literal: Result<String, serde_json::Error>)
    ensures
        literal is Ok,
        literal->Ok_0@ == json_string(text@),
        is_plain(text@) ==> literal->Ok_0@ == quoted(text@),
{
    serde_json::to_string(text)
}

/// The address a ping is posted to: the base address, a slash, and `ping`.
pub open spec fn spec_endpoint(base_url: Seq<char>) -> Seq<char> {
    base_url + "/ping"@
}

/// The JSON body of a ping: an object with the two keys `id` and `type`, in
/// that order and without white space.
pub open spec fn spec_body(ping: NewPingView) -> Seq<char> {
    "{\"id\":"@ + json_string(ping.id) + ",\"type\":"@ + json_string(ping.type_) + "}"@
}

/// The body of a ping whose two fields need no escape: the fields stand in
/// it as they are.
pub open spec fn spec_plain_body(ping: NewPingView) -> Seq<char> {
    "{\"id\":\""@ + ping.id + "\",\"type\":\""@ + ping.type_ + "\"}"@
}

/// Where the two fields of a ping are written between plain double quotes,
/// the body is the plain body.
proof fn lemma_body_with_quoted_fields(ping: NewPingView)
    requires
        json_string(ping.id) == quoted(ping.id),
        json_string(ping.type_) == quoted(ping.type_),
    ensures
        spec_body(ping) == spec_plain_body(ping),
{
    reveal_strlit("{\"id\":");
    reveal_strlit(",\"type\":");
    reveal_strlit("}");
    reveal_strlit("{\"id\":\"");
    reveal_strlit("\",\"type\":\"");
    reveal_strlit("\"}");
    assert(spec_body(ping) =~= spec_plain_body(ping));
}

/// The category `resin` needs no escape.
proof fn lemma_category_is_plain()
    ensures
        is_plain(spec_category()),
{
    reveal_strlit("resin");
}

/// Builds the address of the ping endpoint below `base_url`. Nothing is
/// checked or trimmed: a base that is no address is for the transport to
/// refuse.
pub fn endpoint(base_url: &str) -> (url: String)
    ensures
        url@ == spec_endpoint(base_url@),
{
    let mut url = String::from_str(base_url);
    url.append("/ping");
    url
}

impl NewPing {
    /// Writes the ping as the JSON object that Horatio expects. The field
    /// `type_` goes out under the key `type`.
    pub fn to_json(&self) -> (body: String)
        ensures
            body@ == spec_body(self@),
            is_plain(self@.id) && is_plain(self@.type_) ==> body@ == spec_plain_body(self@),
    {
        let id = to_json_string(self.id.as_str()).unwrap();
        let category = to_json_string(self.type_.as_str()).unwrap();
        let mut body = String::from_str("{\"id\":");
        body.append(id.as_str());
        body.append(",\"type\":");
        body.append(category.as_str());
        body.append("}");
        proof {
            if is_plain(self@.id) && is_plain(self@.type_) {
                lemma_body_with_quoted_fields(self@);
            }
        }
        body
    }
}

/// One request to Horatio: `body` is posted to `url`.
#[derive(Debug, PartialEq)]
pub struct Request {
    pub url: String,
    pub body: String,
}

/// A `Request` as mathematics sees it.
pub struct RequestView {
    pub url: Seq<char>,
    pub body: Seq<char>,
}

impl View for Request {
    type V = RequestView;

    open spec fn view(&self) -> RequestView {
        RequestView { url: self.url@, body: self.body@ }
    }
}

/// The request by which the device `id` reports to the Horatio at
/// `base_url`.
pub open spec fn spec_request(base_url: Seq<char>, id: Seq<char>) -> RequestView {
    RequestView { url: spec_endpoint(base_url), body: spec_body(spec_new_ping(id)) }
}

/// Builds the one request that a call sends: the ping of device `id`, as
/// JSON, for the ping endpoint below `base_url`. The request is a function of
/// the two arguments alone: nothing is kept from one call to the next, so
/// the same arguments give the same request every time.
pub fn request(base_url: &str, id: &String) -> (req: Request)
    ensures
        req@ == spec_request(base_url@, id@),
        is_plain(id@) ==> req@.body == spec_plain_body(spec_new_ping(id@)),
{
    let ping = NewPing::for_device(id);
    proof {
        lemma_category_is_plain();
    }
    Request { url: endpoint(base_url), body: ping.to_json() }
}

} // verus!
