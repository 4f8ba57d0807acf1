//! What can go wrong while events are exchanged.

use vstd::prelude::*;
use vstd::string::*;

verus! {

/// The ways in which sending a request or reading an event fails.
#[derive(Debug, Clone, PartialEq, Eq)]
pub enum EventError {
    /// A text was no JSON, or its JSON did not have the shape asked for; the
    /// string says what was found wrong.
    SerializingError(String),
    ConnectionError,
    InvalidResponse,
    CreateRoomError,
    JoinRoomError,
}

/// The mathematical value of an [`EventError`].
pub enum EventFault {
    SerializingError(Seq<char>),
    ConnectionError,
    InvalidResponse,
    CreateRoomError,
    JoinRoomError,
}

impl View for EventError {
    type V = EventFault;

    open spec fn view(&self) -> EventFault {
        match self {
            EventError::SerializingError(err) => EventFault::SerializingError(err@),
            EventError::ConnectionError => EventFault::ConnectionError,
            EventError::InvalidResponse => EventFault::InvalidResponse,
            EventError::CreateRoomError => EventFault::CreateRoomError,
            EventError::JoinRoomError => EventFault::JoinRoomError,
        }
    }
}

impl EventError {
    /// The sentence shown for the error.
    pub open spec fn text(&self) -> Seq<char> {
        match self {
            EventError::SerializingError(err) => "Unable to deserialize Response: "@ + err@,
            EventError::ConnectionError => "Connection Error"@,
            EventError::InvalidResponse => "Invalid Response"@,
            EventError::CreateRoomError => "Unable to create room"@,
            EventError::JoinRoomError => "Unable to join room"@,
        }
    }

    /// The sentence shown for the error.
    pub fn message(&self) -> (r: String)
        ensures
            r@ == self.text(),
    {
        match self {
            EventError::SerializingError(err) => {
                let mut r = "Unable to deserialize Response: ".to_owned();
                r.append(err.as_str());
                r
            },
            EventError::ConnectionError => "Connection Error".to_owned(),
            EventError::InvalidResponse => "Invalid Response".to_owned(),
            EventError::CreateRoomError => "Unable to create room".to_owned(),
            EventError::JoinRoomError => "Unable to join room".to_owned(),
        }
    }
}

} // verus!
