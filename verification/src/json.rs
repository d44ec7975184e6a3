//! The JSON body that carries one chat notification to the destination
//! endpoint.

use vstd::prelude::*;
use vstd::string::*;

verus! {

/// What `serde_json::to_string` gives for the text `s`: the JSON string
/// literal, quotes included, or `None` where it returns an error.
pub uninterp spec fn json_escaped(s: Seq<char>) -> Option<Seq<char>>;

/// The body of a delivery: an object with the two members `username` and
/// `content`, in this order, without white space. Both arguments are JSON
/// string literals already.
pub open spec fn payload_frame(username_json: Seq<char>, content_json: Seq<char>) -> Seq<char> {
    "{\"username\":"@ + username_json + ",\"content\":"@ + content_json + "}"@
}

/// The body that delivers a notification with this username and content:
/// there is one exactly if the serialiser accepts both texts.
pub open spec fn payload_text(username: Seq<char>, content: Seq<char>) -> Option<Seq<char>> {
    payload_of(json_escaped(username), json_escaped(content))
}

/// Calls `serde_json::to_string` on a string slice. What comes back, the
/// text or an error, depends on `s` alone, and the contract gives it a name.
#[verifier::external_body]
fn json_string(s: &str) -> (r: Option<String>)
    ensures
        r.deep_view() == json_escaped(s@),
{
    serde_json::to_string(s).ok()
}

/// Puts two JSON string literals into the frame of a delivery body.
pub fn frame_payload(username_json: &str, content_json: &str) -> (body: String)
    ensures
        body@ == payload_frame(username_json@, content_json@),
{
    let mut body = String::from_str("{\"username\":");
    body.append(username_json);
    body.append(",\"content\":");
    body.append(content_json);
    body.append("}");
    body
}

/// Serialises a notification's username and content for delivery. `None`
/// means that the serialiser refused one of the two texts.
pub fn chat_payload(username: &str, content: &str) -> (r: Option<String>)
    ensures
        r.deep_view() == payload_text(username@, content@),
{
    let username_json = json_string(username);
    let content_json = json_string(content);
    assemble_payload(username_json, content_json)
}

/// The body made of what the serialiser gave for the username and for the
/// content: the two in the frame if it gave a text for both, none otherwise.
pub open spec fn payload_of(
    username_json: Option<Seq<char>>,
    content_json: Option<Seq<char>>,
) -> Option<Seq<char>> {
    match (username_json, content_json) {
        (Some(u), Some(c)) => Some(payload_frame(u, c)),
        _ => None,
    }
}

/// Makes the delivery body from what the serialiser gave for the username
/// and for the content. There is no body if either of the two is missing.
pub fn assemble_payload(
    username_json: Option<String>,
    content_json: Option<String>,
) -> (r: Option<String>)
    ensures
        r.deep_view() == payload_of(username_json.deep_view(), content_json.deep_view()),
{
    match (username_json, content_json) {
        (Some(u), Some(c)) => Some(frame_payload(u.as_str(), c.as_str())),
        _ => None,
    }
}

} // verus!
