//! What can go wrong while a connection is set up.

use vstd::prelude::*;
use vstd::string::*;

verus! {

/// The ways in which setting up the transport fails.
#[derive(Debug, Clone, PartialEq, Eq)]
pub enum WebSocketErrors {
    ConnectionError,
    InvalidResponse,
    HandshakeError,
    InvalidCredentials,
    ServerError,
    UrlParsingError,
    Unknown(String),
}

/// The mathematical value of a [`WebSocketErrors`].
pub enum WebSocketFault {
    ConnectionError,
    InvalidResponse,
    HandshakeError,
    InvalidCredentials,
    ServerError,
    UrlParsingError,
    Unknown(Seq<char>),
}

impl View for WebSocketErrors {
    type V = WebSocketFault;

    open spec fn view(&self) -> WebSocketFault {
        match self {
            WebSocketErrors::ConnectionError => WebSocketFault::ConnectionError,
            WebSocketErrors::InvalidResponse => WebSocketFault::InvalidResponse,
            WebSocketErrors::HandshakeError => WebSocketFault::HandshakeError,
            WebSocketErrors::InvalidCredentials => WebSocketFault::InvalidCredentials,
            WebSocketErrors::ServerError => WebSocketFault::ServerError,
            WebSocketErrors::UrlParsingError => WebSocketFault::UrlParsingError,
            WebSocketErrors::Unknown(err) => WebSocketFault::Unknown(err@),
        }
    }
}

impl WebSocketErrors {
    /// The sentence shown for the error.
    pub open spec fn text(&self) -> Seq<char> {
        match self {
            WebSocketErrors::ConnectionError => "Connection Error"@,
            WebSocketErrors::InvalidResponse => "Invalid response received from server"@,
            WebSocketErrors::HandshakeError => "Error during Socket.io Handshake"@,
            WebSocketErrors::InvalidCredentials => "Incorrect email or password"@,
            WebSocketErrors::ServerError => "Internal Server Error"@,
            WebSocketErrors::UrlParsingError => "Unable to parse url"@,
            WebSocketErrors::Unknown(err) => "Unknown Error: "@ + err@,
        }
    }

    /// The sentence shown for the error.
    pub fn message(&self) -> (r: String)
        ensures
            r@ == self.text(),
    {
        match self {
            WebSocketErrors::ConnectionError => "Connection Error".to_owned(),
            WebSocketErrors::InvalidResponse => "Invalid response received from server".to_owned(),
            WebSocketErrors::HandshakeError => "Error during Socket.io Handshake".to_owned(),
            WebSocketErrors::InvalidCredentials => "Incorrect email or password".to_owned(),
            WebSocketErrors::ServerError => "Internal Server Error".to_owned(),
            WebSocketErrors::UrlParsingError => "Unable to parse url".to_owned(),
            WebSocketErrors::Unknown(err) => {
                let mut r = "Unknown Error: ".to_owned();
                r.append(err.as_str());
                r
            },
        }
    }
}

} // verus!
