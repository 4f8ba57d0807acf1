//! The messages of the two handshakes.

use crate::json::{
    count_member, json_string, load_object, lookup_count, lookup_text, lookup_texts, members_view,
    object_members, text_member, texts_member, write_string, JsonMembers, JsonNodeView,
};
use vstd::prelude::*;
use vstd::string::*;

verus! {

/// What the server announces when the outer layer opens. The client keeps it
/// for information only.
#[derive(Debug, Clone, PartialEq, Eq)]
pub struct EngineIOHandshakeResponse {
    pub sid: String,
    pub upgrades: Vec<String>,
    pub ping_interval: usize,
    pub ping_timeout: usize,
    pub max_payload: usize,
}

impl EngineIOHandshakeResponse {
    /// Whether the members of an object fit the message: a string `sid`, an
    /// array of strings `upgrades`, and the counts `pingInterval`,
    /// `pingTimeout` and `maxPayload`.
    pub open spec fn fits(members: Seq<(Seq<char>, JsonNodeView)>) -> bool {
        &&& text_member(members, "sid"@) is Some
        &&& texts_member(members, "upgrades"@) is Some
        &&& count_member(members, "pingInterval"@) is Some
        &&& count_member(members, "pingTimeout"@) is Some
        &&& count_member(members, "maxPayload"@) is Some
    }

    /// Whether the message holds what the members say.
    pub open spec fn describes(&self, members: Seq<(Seq<char>, JsonNodeView)>) -> bool {
        &&& text_member(members, "sid"@) == Some(self.sid@)
        &&& texts_member(members, "upgrades"@) == Some(self.upgrades.deep_view())
        &&& count_member(members, "pingInterval"@) == Some(self.ping_interval)
        &&& count_member(members, "pingTimeout"@) == Some(self.ping_timeout)
        &&& count_member(members, "maxPayload"@) == Some(self.max_payload)
    }

    /// Whether a JSON text holds a message of this kind.
    pub open spec fn readable(text: Seq<char>) -> bool {
        object_members(text) matches Some(members) && Self::fits(members)
    }

    /// Takes the message out of the members of an object.
    pub fn from_members(members: &JsonMembers) -> (r: Option<Self>)
        ensures
            r is Some <==> Self::fits(members_view(members@)),
            r matches Some(message) ==> message.describes(members_view(members@)),
    {
        let sid = lookup_text(members, "sid");
        let upgrades = lookup_texts(members, "upgrades");
        let ping_interval = lookup_count(members, "pingInterval");
        let ping_timeout = lookup_count(members, "pingTimeout");
        let max_payload = lookup_count(members, "maxPayload");
        match (sid, upgrades, ping_interval, ping_timeout, max_payload) {
            (
                Some(sid),
                Some(upgrades),
                Some(ping_interval),
                Some(ping_timeout),
                Some(max_payload),
            ) => Some(
                Self { sid: sid.clone(), upgrades, ping_interval, ping_timeout, max_payload },
            ),
            _ => None,
        }
    }

    /// Reads the message from JSON text.
    pub fn parse(text: &str) -> (r: Option<Self>)
        ensures
            r is Some <==> Self::readable(text@),
            r matches Some(message) ==> message.describes(object_members(text@)->0),
    {
        match load_object(text) {
            Some(members) => Self::from_members(&members),
            None => None,
        }
    }
}

/// What the client sends to open the inner layer: its bearer token.
#[derive(Debug, Clone, PartialEq, Eq)]
pub struct SocketIOHandshakeRequest {
    pub token: String,
}

impl SocketIOHandshakeRequest {
    /// A request that carries `token`.
    pub fn new(token: &str) -> (r: Self)
        ensures
            r.token@ == token@,
    {
        Self { token: token.to_owned() }
    }

    /// The JSON object `{"token":..}`.
    pub open spec fn wire(&self) -> Seq<char> {
        "{\"token\":"@ + json_string(self.token@) + "}"@
    }

    /// Writes the request as JSON.
    pub fn to_json(&self) -> (r: String)
        ensures
            r@ == self.wire(),
    {
        let mut r = "{\"token\":".to_owned();
        let token = write_string(self.token.as_str());
        r.append(token.as_str());
        r.append("}");
        r
    }
}

/// What the server answers when it accepts the token.
#[derive(Debug, Clone, PartialEq, Eq)]
pub struct SocketIOHandshakeResponse {
    pub sid: String,
}

impl SocketIOHandshakeResponse {
    /// Whether the members of an object fit the message: a string `sid`.
    pub open spec fn fits(members: Seq<(Seq<char>, JsonNodeView)>) -> bool {
        text_member(members, "sid"@) is Some
    }

    /// Whether the message holds what the members say.
    pub open spec fn describes(&self, members: Seq<(Seq<char>, JsonNodeView)>) -> bool {
        text_member(members, "sid"@) == Some(self.sid@)
    }

    /// Whether a JSON text holds a message of this kind.
    pub open spec fn readable(text: Seq<char>) -> bool {
        object_members(text) matches Some(members) && Self::fits(members)
    }

    /// Takes the message out of the members of an object.
    pub fn from_members(members: &JsonMembers) -> (r: Option<Self>)
        ensures
            r is Some <==> Self::fits(members_view(members@)),
            r matches Some(message) ==> message.describes(members_view(members@)),
    {
        match lookup_text(members, "sid") {
            Some(sid) => Some(Self { sid: sid.clone() }),
            None => None,
        }
    }

    /// Reads the message from JSON text.
    pub fn parse(text: &str) -> (r: Option<Self>)
        ensures
            r is Some <==> Self::readable(text@),
            r matches Some(message) ==> message.describes(object_members(text@)->0),
    {
        match load_object(text) {
            Some(members) => Self::from_members(&members),
            None => None,
        }
    }
}

} // verus!
