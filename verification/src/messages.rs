//! The messages the realtime channel carries.

use vstd::prelude::*;

verus! {

/// A string written as a JSON string literal, surrounding quotes included,
/// with the escapes the JSON grammar requires.
pub uninterp spec fn json_string_lit(s: Seq<char>) -> Seq<char>;

/// Relies on `serde_json::to_string` on a bare string: it yields the JSON
/// string literal for it, and depends on the characters alone.
#[verifier::external_body]
fn encode_json_string(s: &str) -> (r: String)
    ensures
        r@ == json_string_lit(s@),
{
    serde_json::to_string(s).unwrap_or_default()
}

/// A message published to one topic of the realtime channel.
#[derive(Debug, Clone)]
pub struct RealtimeMessage {
    pub topic: String,
    pub payload: String,
}

impl RealtimeMessage {
    /// The message as the JSON object the channel sends: the topic first,
    /// then the payload, both as JSON string literals.
    pub open spec fn to_string_spec(self) -> Seq<char> {
        "{\"topic\":"@ + json_string_lit(self.topic@) + ",\"payload\":"@ + json_string_lit(
            self.payload@,
        ) + "}"@
    }

    pub fn to_string(&self) -> (r: String)
        ensures
            r@ == self.to_string_spec(),
    {
        let mut r: String = String::from_str("{\"topic\":");
        let topic = encode_json_string(self.topic.as_str());
        r.append(topic.as_str());
        r.append(",\"payload\":");
        let payload = encode_json_string(self.payload.as_str());
        r.append(payload.as_str());
        r.append("}");
        proof {
            assert(r@ =~= self.to_string_spec());
        }
        r
    }
}

/// A plain acknowledgement message a server answers with.
#[derive(Debug, Clone)]
pub struct MessageResponse {
    /// This is a message from the server.
    pub message: String,
}

} // verus!
