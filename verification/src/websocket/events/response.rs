//! The envelope of an inbound event: a name and a payload that is not read
//! until the name has said what to expect.

use crate::json::{document, json_document, read_document, read, JsonNode, JsonNodeView};
use crate::websocket::events::errors::EventError;
use vstd::prelude::*;

verus! {

/// An event's name and its payload as JSON text.
#[derive(Debug, Clone, PartialEq, Eq)]
pub struct EventResponse(pub String, pub String);

/// What is reported of a document that is no envelope.
pub open spec fn shape_complaint() -> Seq<char> {
    "expected an array of an event name and a payload"@
}

/// The envelope that a JSON text holds: the document is an array of exactly
/// two items and the first of them is a string. Otherwise the error's
/// message: the reader's own where the text is no JSON, a fixed one where
/// the document has another shape.
pub open spec fn envelope(text: Seq<char>) -> Result<(Seq<char>, Seq<char>), Seq<char>> {
    match json_document(text) {
        Ok(node) => match envelope_of(node) {
            Some(pair) => Ok(pair),
            None => Err(shape_complaint()),
        },
        Err(message) => Err(message),
    }
}

/// The name and the payload text of a document that is an envelope.
pub open spec fn envelope_of(node: JsonNodeView) -> Option<(Seq<char>, Seq<char>)> {
    match node {
        JsonNodeView::Array(items) => if items.len() == 2 {
            match document(items[0]) {
                Some(JsonNodeView::Text(name)) => Some((name, items[1])),
                _ => None,
            }
        } else {
            None
        },
        _ => None,
    }
}

impl EventResponse {
    /// The event's name.
    pub fn get_type(&self) -> (name: &str)
        ensures
            name@ == self.0@,
    {
        self.0.as_str()
    }

    /// The event's payload, as JSON text.
    pub fn get_value(&self) -> (payload: &str)
        ensures
            payload@ == self.1@,
    {
        self.1.as_str()
    }

    /// Takes the envelope out of a document that has been read.
    pub fn from_node(node: &JsonNode) -> (r: Option<Self>)
        ensures
            r is Some <==> envelope_of(node@) is Some,
            r matches Some(response) ==> envelope_of(node@) == Some((response.0@, response.1@)),
    {
        match node {
            JsonNode::Array(items) => {
                if items.len() == 2 {
                    assert(items.deep_view()[0] == items@[0]@);
                    assert(items.deep_view()[1] == items@[1]@);
                    match read(items[0].as_str()) {
                        Some(JsonNode::Text(name)) => Some(Self(name, items[1].clone())),
                        _ => None,
                    }
                } else {
                    None
                }
            },
            _ => None,
        }
    }

    /// Reads the envelope from JSON text.
    pub fn parse(text: &str) -> (r: Result<Self, EventError>)
        ensures
            match r {
                Ok(response) => envelope(text@) == Ok::<(Seq<char>, Seq<char>), Seq<char>>(
                    (response.0@, response.1@),
                ),
                Err(EventError::SerializingError(message)) => envelope(text@) == Err::<
                    (Seq<char>, Seq<char>),
                    Seq<char>,
                >(message@),
                Err(_) => false,
            },
    {
        match read_document(text) {
            Ok(node) => match Self::from_node(&node) {
                Some(response) => Ok(response),
                None => Err(
                    EventError::SerializingError(
                        "expected an array of an event name and a payload".to_owned(),
                    ),
                ),
            },
            Err(message) => Err(EventError::SerializingError(message)),
        }
    }
}

} // verus!
