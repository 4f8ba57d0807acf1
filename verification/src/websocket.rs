//! The protocol transport: framing, handshake, typed events.
//!
//! [`SocketIoClient`] holds the protocol's side of one connection and never
//! touches a socket. Whoever drives it performs the I/O: it hands in what the
//! socket delivered as an [`Incoming`], and sends the frames that the client
//! hands back.

pub mod codec;
pub mod errors;
pub mod events;
pub mod handshake;

use crate::json::{
    bool_member, is_plain, json_string, lemma_plain_string, load_object, object_members,
    text_member,
};
use crate::text::str_eq;
use crate::websocket::codec::{decimal, decode, decoded, encode, encoded, lemma_decode_encode};
use crate::websocket::errors::{WebSocketErrors, WebSocketFault};
use crate::websocket::events::errors::{EventError, EventFault};
use crate::websocket::events::request::{
    bool_text, CreateRoomRequest, EventRequest, EventTypes, PaddleMoveDirection,
};
use crate::websocket::events::response::{envelope, EventResponse};
use crate::websocket::events::websocketevents::{kind_of, CreateRoomEvent, WebSocketEvents};
use crate::websocket::handshake::{
    EngineIOHandshakeResponse, SocketIOHandshakeRequest, SocketIOHandshakeResponse,
};
use vstd::prelude::*;

verus! {

/// What a read on the connection delivered.
#[derive(Debug, Clone, PartialEq, Eq)]
pub enum Incoming {
    /// A text frame.
    Text(String),
    /// A frame of any other kind.
    Other,
    /// Nothing: the stream ended, or the read failed.
    Lost,
}

/// The mathematical value of an [`Incoming`].
pub enum Delivery {
    Text(Seq<char>),
    Other,
    Lost,
}

impl View for Incoming {
    type V = Delivery;

    open spec fn view(&self) -> Delivery {
        match self {
            Incoming::Text(text) => Delivery::Text(text@),
            Incoming::Other => Delivery::Other,
            Incoming::Lost => Delivery::Lost,
        }
    }
}

/// How the attempt to open the connection ended.
#[derive(Debug, Clone, PartialEq, Eq)]
pub enum ConnectOutcome {
    /// The connection is open.
    Connected,
    /// No TLS connector could be built; the string says why.
    ConnectorFailed(String),
    /// The connection could not be opened.
    Refused,
}

/// Where a transport stands. The order of the variants is the only order in
/// which they are passed through.
#[derive(Debug, Clone, Copy, PartialEq, Eq, Structural)]
pub enum Phase {
    /// The connection is being opened.
    Connecting,
    /// The server's open frame is awaited.
    OuterHandshake,
    /// The token was sent; the server's answer is awaited.
    InnerHandshake,
    /// Events flow.
    Ready,
    /// The connection is given up.
    Closed,
}

impl Phase {
    /// The position of the phase in the transport's life.
    pub open spec fn rank(self) -> nat {
        match self {
            Phase::Connecting => 0,
            Phase::OuterHandshake => 1,
            Phase::InnerHandshake => 2,
            Phase::Ready => 3,
            Phase::Closed => 4,
        }
    }
}

/// Whether `http` takes a text for a URI.
pub uninterp spec fn uri_accepted(url: Seq<char>) -> bool;

/// Whether a text is a URI.
///
/// Trusted: the body parses the text as an `http::Uri` (`Uri::from_str`) and
/// tells success from failure. The contract only names the answer.
#[verifier::external_body]
fn is_uri(url: &str) -> (accepted: bool)
    ensures
        accepted == uri_accepted(url@),
{
    url.parse::<http::Uri>().is_ok()
}

/// The opcode of the outer layer's open frame.
pub const OPEN: usize = 0;

/// The opcode of the keep-alive probe; its whole frame is this digit.
pub const PING: usize = 2;

/// The opcode of the keep-alive answer; its whole frame is this digit.
pub const PONG: usize = 3;

/// The opcode of the inner layer's connect frame, in both directions.
pub const CONNECT: usize = 40;

/// The opcode by which the server turns the token down.
pub const CONNECT_ERROR: usize = 44;

/// The opcode of an event frame, in both directions.
pub const EVENT: usize = 42;

/// How the outer handshake ends on a delivery: well where it is a text frame
/// with opcode 0 whose payload is the server's open message; with a handshake
/// error on anything else.
pub open spec fn open_outcome(delivery: Delivery) -> Result<(), WebSocketFault> {
    match delivery {
        Delivery::Text(text) => match decoded(text) {
            Some((opcode, json)) => if opcode == OPEN && EngineIOHandshakeResponse::readable(
                json,
            ) {
                Ok(())
            } else {
                Err(WebSocketFault::HandshakeError)
            },
            None => Err(WebSocketFault::HandshakeError),
        },
        _ => Err(WebSocketFault::HandshakeError),
    }
}

/// How the inner handshake ends on a delivery: well where it is a text frame
/// with opcode 40 whose payload is the server's connect message; with
/// rejected credentials on opcode 44; with a handshake error on anything
/// else.
pub open spec fn connect_outcome(delivery: Delivery) -> Result<(), WebSocketFault> {
    match delivery {
        Delivery::Text(text) => match decoded(text) {
            Some((opcode, json)) => if opcode == CONNECT_ERROR {
                Err(WebSocketFault::InvalidCredentials)
            } else if opcode != CONNECT {
                Err(WebSocketFault::HandshakeError)
            } else if SocketIOHandshakeResponse::readable(json) {
                Ok(())
            } else {
                Err(WebSocketFault::HandshakeError)
            },
            None => Err(WebSocketFault::HandshakeError),
        },
        _ => Err(WebSocketFault::HandshakeError),
    }
}

/// The phase after the attempt to connect has ended.
pub open spec fn after_connect(phase: Phase, connected: bool) -> Phase {
    if phase != Phase::Connecting {
        phase
    } else if connected {
        Phase::OuterHandshake
    } else {
        Phase::Closed
    }
}

/// The phase after a delivery was taken for the server's open frame.
pub open spec fn after_open(phase: Phase, delivery: Delivery) -> Phase {
    if phase != Phase::OuterHandshake {
        phase
    } else if open_outcome(delivery) is Ok {
        Phase::InnerHandshake
    } else {
        Phase::Closed
    }
}

/// The phase after a delivery was taken for the server's answer to the token.
pub open spec fn after_answer(phase: Phase, delivery: Delivery) -> Phase {
    if phase != Phase::InnerHandshake {
        phase
    } else if connect_outcome(delivery) is Ok {
        Phase::Ready
    } else {
        Phase::Closed
    }
}

/// The frame that carries the request with the given name and payload:
/// opcode 42, then `[name,payload]`.
pub open spec fn request_frame(name: Seq<char>, payload: EventTypes) -> Seq<char> {
    encoded(EVENT, "["@ + json_string(name) + ","@ + payload.wire() + "]"@)
}

/// The frame that carries a request.
pub open spec fn event_frame(request: EventRequest) -> Seq<char> {
    request_frame(request.0@, request.1)
}

/// The frame that opens the inner layer: opcode 40, then `{"token":..}`.
pub open spec fn connect_frame(token: Seq<char>) -> Seq<char> {
    encoded(CONNECT, "{\"token\":"@ + json_string(token) + "}"@)
}

/// The envelope that a delivery holds where it is taken for the reply to a
/// request: a text frame with opcode 42 whose payload is an envelope. A frame
/// that does not decode, a frame of another kind and a lost connection are a
/// connection error; another opcode is an invalid response, whatever the
/// payload; a payload that is no envelope is a serializing error.
pub open spec fn reply_of(delivery: Delivery) -> Result<(Seq<char>, Seq<char>), EventFault> {
    match delivery {
        Delivery::Text(text) => match decoded(text) {
            Some((opcode, json)) => if opcode != EVENT {
                Err(EventFault::InvalidResponse)
            } else {
                match envelope(json) {
                    Ok(pair) => Ok(pair),
                    Err(message) => Err(EventFault::SerializingError(message)),
                }
            },
            None => Err(EventFault::ConnectionError),
        },
        _ => Err(EventFault::ConnectionError),
    }
}

/// What is reported of a `room_created` payload that does not fit.
pub open spec fn room_complaint() -> Seq<char> {
    "expected a room id and a success flag"@
}

/// The id of the room that the reply to a `create_room` request announces.
/// `room_created` with a fitting payload and `success` set gives the id; with
/// `success` unset it is an invalid response; with a payload that does not
/// fit it is a serializing error. `create_error` says that the server turned
/// the request down. Any other name is an invalid response.
pub open spec fn created_room(delivery: Delivery) -> Result<Seq<char>, EventFault> {
    match reply_of(delivery) {
        Ok((name, payload)) => if name == "room_created"@ {
            match object_members(payload) {
                Some(members) => if CreateRoomEvent::fits(members) {
                    if bool_member(members, "success"@)->0 {
                        Ok(text_member(members, "roomId"@)->0)
                    } else {
                        Err(EventFault::InvalidResponse)
                    }
                } else {
                    Err(EventFault::SerializingError(room_complaint()))
                },
                None => Err(EventFault::SerializingError(room_complaint())),
            }
        } else if name == "create_error"@ {
            Err(EventFault::CreateRoomError)
        } else {
            Err(EventFault::InvalidResponse)
        },
        Err(fault) => Err(fault),
    }
}

/// How the reply to a `join_room` request ends: well on `joined_room`, with
/// the server's refusal on `join_error`, with an invalid response on any
/// other name.
pub open spec fn joined_room(delivery: Delivery) -> Result<(), EventFault> {
    match reply_of(delivery) {
        Ok((name, payload)) => if name == "joined_room"@ {
            Ok(())
        } else if name == "join_error"@ {
            Err(EventFault::JoinRoomError)
        } else {
            Err(EventFault::InvalidResponse)
        },
        Err(fault) => Err(fault),
    }
}

/// What the reply to a request for a room gives: nothing more where the
/// client asked to be let into a room and was, the id of the new room where
/// it asked for one, and otherwise the fault that [`joined_room`] or
/// [`created_room`] finds.
pub open spec fn room_outcome(joining: bool, delivery: Delivery) -> Result<
    Option<Seq<char>>,
    EventFault,
> {
    if joining {
        match joined_room(delivery) {
            Ok(()) => Ok(None),
            Err(fault) => Err(fault),
        }
    } else {
        match created_room(delivery) {
            Ok(room_id) => Ok(Some(room_id)),
            Err(fault) => Err(fault),
        }
    }
}

/// Whether a delivery is the keep-alive probe: the bare text `2`.
pub open spec fn is_ping(delivery: Delivery) -> bool {
    delivery == Delivery::Text("2"@)
}

/// The envelope that a delivery holds where it is taken for an event that
/// nobody asked for, or the fault that it shows. The opcode is not looked at.
/// A lost connection is a connection error; a frame of another kind and a
/// frame that does not decode are invalid responses; a payload that is no
/// envelope is a serializing error.
pub open spec fn event_of(delivery: Delivery) -> Result<(Seq<char>, Seq<char>), EventFault> {
    match delivery {
        Delivery::Text(text) => match decoded(text) {
            Some((opcode, json)) => match envelope(json) {
                Ok(pair) => Ok(pair),
                Err(message) => Err(EventFault::SerializingError(message)),
            },
            None => Err(EventFault::InvalidResponse),
        },
        Delivery::Other => Err(EventFault::InvalidResponse),
        Delivery::Lost => Err(EventFault::ConnectionError),
    }
}

/// The fault that a delivery shows where it is taken for an event that nobody
/// asked for; nothing where it is the keep-alive probe or holds an event of
/// the closed set with a fitting payload.
pub open spec fn event_fault(delivery: Delivery) -> Option<EventFault> {
    if is_ping(delivery) {
        None
    } else {
        match event_of(delivery) {
            Ok((name, payload)) => match kind_of(name) {
                Some(kind) => if WebSocketEvents::readable(kind, payload) {
                    None
                } else {
                    Some(EventFault::InvalidResponse)
                },
                None => Some(EventFault::InvalidResponse),
            },
            Err(fault) => Some(fault),
        }
    }
}

/// Every frame that the client builds decodes to the opcode and the payload
/// that it was built from: a request to opcode 42 and `[name,payload]`, the
/// connect frame to opcode 40 and `{"token":..}`.
pub proof fn lemma_frames_decode(name: Seq<char>, payload: EventTypes, token: Seq<char>)
    ensures
        decoded(request_frame(name, payload)) == Some(
            (EVENT, "["@ + json_string(name) + ","@ + payload.wire() + "]"@),
        ),
        decoded(connect_frame(token)) == Some(
            (CONNECT, "{\"token\":"@ + json_string(token) + "}"@),
        ),
{
    reveal_strlit("[");
    reveal_strlit("{\"token\":");
    lemma_decode_encode(EVENT, "["@ + json_string(name) + ","@ + payload.wire() + "]"@);
    lemma_decode_encode(CONNECT, "{\"token\":"@ + json_string(token) + "}"@);
}

/// The connect frame, letter for letter: for a token of plain characters it
/// is `40{"token":"<token>"}`.
pub proof fn lemma_connect_frame_text(token: Seq<char>)
    requires
        forall|i: int| 0 <= i < token.len() ==> is_plain(#[trigger] token[i]),
    ensures
        connect_frame(token) == "40{\"token\":\""@ + token + "\"}"@,
{
    lemma_plain_string(token);
    reveal_strlit("{\"token\":");
    reveal_strlit("}");
    reveal_strlit("40{\"token\":\"");
    reveal_strlit("\"}");
    assert(decimal(4) =~= seq!['4']);
    assert(decimal(CONNECT as nat) =~= decimal(4).push('0'));
    assert(connect_frame(token) =~= "40{\"token\":\""@ + token + "\"}"@);
}

/// The frames of the four requests, letter for letter: `42[`, the request's
/// name between double quotes, a comma, the payload, `]`.
pub proof fn lemma_request_frame_text(payload: EventTypes)
    ensures
        request_frame("create_room"@, payload) == "42[\"create_room\","@ + payload.wire() + "]"@,
        request_frame("join_room"@, payload) == "42[\"join_room\","@ + payload.wire() + "]"@,
        request_frame("paddle_move"@, payload) == "42[\"paddle_move\","@ + payload.wire() + "]"@,
        request_frame("game_pause"@, payload) == "42[\"game_pause\","@ + payload.wire() + "]"@,
{
    reveal_strlit("[");
    reveal_strlit(",");
    reveal_strlit("]");
    assert(decimal(4) =~= seq!['4']);
    assert(decimal(EVENT as nat) =~= decimal(4).push('2'));
    reveal_strlit("create_room");
    reveal_strlit("42[\"create_room\",");
    lemma_plain_string("create_room"@);
    assert(request_frame("create_room"@, payload) =~= "42[\"create_room\","@ + payload.wire()
        + "]"@);
    reveal_strlit("join_room");
    reveal_strlit("42[\"join_room\",");
    lemma_plain_string("join_room"@);
    assert(request_frame("join_room"@, payload) =~= "42[\"join_room\","@ + payload.wire() + "]"@);
    reveal_strlit("paddle_move");
    reveal_strlit("42[\"paddle_move\",");
    lemma_plain_string("paddle_move"@);
    assert(request_frame("paddle_move"@, payload) =~= "42[\"paddle_move\","@ + payload.wire()
        + "]"@);
    reveal_strlit("game_pause");
    reveal_strlit("42[\"game_pause\",");
    lemma_plain_string("game_pause"@);
    assert(request_frame("game_pause"@, payload) =~= "42[\"game_pause\","@ + payload.wire()
        + "]"@);
}

/// The frame that asks for a room, letter for letter:
/// `42["create_room",{"isSinglePlayer":<bool>,"isRemote":<bool>}]`.
pub proof fn lemma_room_frame_text(single_player: bool, remote: bool)
    ensures
        request_frame(
            "create_room"@,
            EventTypes::CreateRoom(CreateRoomRequest::of(single_player, remote)),
        ) == "42[\"create_room\",{\"isSinglePlayer\":"@ + bool_text(single_player)
            + ",\"isRemote\":"@ + bool_text(remote) + "}]"@,
{
    let payload = EventTypes::CreateRoom(CreateRoomRequest::of(single_player, remote));
    CreateRoomRequest::lemma_of(single_player, remote);
    lemma_request_frame_text(payload);
    reveal_strlit("}");
    reveal_strlit("]");
    reveal_strlit("}]");
    reveal_strlit("{\"isSinglePlayer\":");
    reveal_strlit("42[\"create_room\",");
    reveal_strlit("42[\"create_room\",{\"isSinglePlayer\":");
    assert("42[\"create_room\","@ + "{\"isSinglePlayer\":"@
        =~= "42[\"create_room\",{\"isSinglePlayer\":"@);
    assert("}"@ + "]"@ =~= "}]"@);
    assert(request_frame("create_room"@, payload) =~= "42[\"create_room\",{\"isSinglePlayer\":"@
        + bool_text(single_player) + ",\"isRemote\":"@ + bool_text(remote) + "}]"@);
}

/// The keep-alive probe and its answer are the bare opcodes 2 and 3.
pub proof fn lemma_keep_alive_opcodes()
    ensures
        "2"@ == decimal(PING as nat),
        "3"@ == decimal(PONG as nat),
{
    reveal_strlit("2");
    reveal_strlit("3");
    assert("2"@ =~= decimal(PING as nat));
    assert("3"@ =~= decimal(PONG as nat));
}

/// The handshake script. From the outer handshake, two deliveries make the
/// transport ready exactly where the first is a valid open frame and the
/// second a valid connect frame; every other pair closes it.
pub proof fn lemma_handshake_script(open: Delivery, answer: Delivery)
    ensures
        after_answer(after_open(Phase::OuterHandshake, open), answer) == Phase::Ready <==> (
        open_outcome(open) is Ok && connect_outcome(answer) is Ok),
        !(open_outcome(open) is Ok && connect_outcome(answer) is Ok) ==> after_answer(
            after_open(Phase::OuterHandshake, open),
            answer,
        ) == Phase::Closed,
{
}

/// The documented faults of the handshake: opcode 44 in the server's answer
/// says that the credentials were rejected; any other opcode but 40, a frame
/// that does not decode, a frame of another kind and a lost connection are
/// handshake errors, in both handshakes.
pub proof fn lemma_handshake_faults(delivery: Delivery)
    ensures
        open_outcome(delivery) is Err ==> open_outcome(delivery) == Err::<(), WebSocketFault>(
            WebSocketFault::HandshakeError,
        ),
        (delivery matches Delivery::Text(text) && decoded(text) matches Some((opcode, _)) && opcode
            == CONNECT_ERROR) ==> connect_outcome(delivery) == Err::<(), WebSocketFault>(
            WebSocketFault::InvalidCredentials,
        ),
        (delivery matches Delivery::Text(text) && decoded(text) matches Some((opcode, _)) && opcode
            != CONNECT && opcode != CONNECT_ERROR) ==> connect_outcome(delivery) == Err::<
            (),
            WebSocketFault,
        >(WebSocketFault::HandshakeError),
        !(delivery is Text) ==> connect_outcome(delivery) == Err::<(), WebSocketFault>(
            WebSocketFault::HandshakeError,
        ),
{
}

/// No step of the handshake leads back: a phase is never followed by an
/// earlier one, and a closed transport stays closed.
pub proof fn lemma_no_way_back(phase: Phase, connected: bool, delivery: Delivery)
    ensures
        after_connect(phase, connected).rank() >= phase.rank(),
        after_open(phase, delivery).rank() >= phase.rank(),
        after_answer(phase, delivery).rank() >= phase.rank(),
        after_connect(Phase::Closed, connected) == Phase::Closed,
        after_open(Phase::Closed, delivery) == Phase::Closed,
        after_answer(Phase::Closed, delivery) == Phase::Closed,
{
}

/// A reply whose opcode is not 42 is an invalid response, whatever its
/// payload holds and whichever request it follows.
pub proof fn lemma_reply_needs_event_opcode(text: Seq<char>)
    requires
        decoded(text) matches Some((opcode, _)) && opcode != EVENT,
    ensures
        reply_of(Delivery::Text(text)) == Err::<(Seq<char>, Seq<char>), EventFault>(
            EventFault::InvalidResponse,
        ),
        created_room(Delivery::Text(text)) == Err::<Seq<char>, EventFault>(
            EventFault::InvalidResponse,
        ),
        joined_room(Delivery::Text(text)) == Err::<(), EventFault>(EventFault::InvalidResponse),
{
}

/// The keep-alive probe shows no fault, whatever a JSON reader would make of
/// it.
pub proof fn lemma_ping_is_no_fault(delivery: Delivery)
    requires
        is_ping(delivery),
    ensures
        event_fault(delivery) is None,
{
}

/// What the client does on a delivery outside of a request's reply.
#[derive(Debug, PartialEq, Eq)]
pub struct Received {
    /// The event for the caller, or the fault.
    pub event: Result<WebSocketEvents, EventError>,
    /// The frame to send back at once, where the delivery asks for one.
    pub reply: Option<String>,
}

/// The protocol's side of one connection.
#[derive(Debug)]
pub struct SocketIoClient {
    phase: Phase,
    token: String,
}

impl SocketIoClient {
    /// Where the transport stands.
    pub closed spec fn phase(&self) -> Phase {
        self.phase
    }

    /// The bearer token that the transport presents.
    pub closed spec fn token(&self) -> Seq<char> {
        self.token@
    }

    /// Where the transport stands.
    pub fn current_phase(&self) -> (phase: Phase)
        ensures
            phase == self.phase(),
    {
        self.phase
    }

    /// A transport for the endpoint `url` that will present `token`. It fails
    /// where `url` is no URI. The connection is still to be opened.
    pub fn new(url: &str, token: &str) -> (r: Result<Self, WebSocketErrors>)
        ensures
            match r {
                Ok(client) => uri_accepted(url@) && client.phase() == Phase::Connecting
                    && client.token() == token@,
                Err(e) => !uri_accepted(url@) && e@ == WebSocketFault::UrlParsingError,
            },
    {
        if is_uri(url) {
            Ok(Self { phase: Phase::Connecting, token: token.to_owned() })
        } else {
            Err(WebSocketErrors::UrlParsingError)
        }
    }

    /// Takes note of how the attempt to connect ended. A failure closes the
    /// transport. Outside of the connecting phase the call changes nothing
    /// and reports a connection error.
    pub fn connected(&mut self, outcome: ConnectOutcome) -> (r: Result<(), WebSocketErrors>)
        ensures
            final(self).token() == old(self).token(),
            final(self).phase() == after_connect(old(self).phase(), outcome is Connected),
            old(self).phase() != Phase::Connecting ==> (r matches Err(e) && e@
                == WebSocketFault::ConnectionError),
            old(self).phase() == Phase::Connecting ==> match outcome {
                ConnectOutcome::Connected => r is Ok,
                ConnectOutcome::ConnectorFailed(why) => r matches Err(e) && e@
                    == WebSocketFault::Unknown(why@),
                ConnectOutcome::Refused => r matches Err(e) && e@
                    == WebSocketFault::ConnectionError,
            },
    {
        if self.phase != Phase::Connecting {
            return Err(WebSocketErrors::ConnectionError);
        }
        match outcome {
            ConnectOutcome::Connected => {
                self.phase = Phase::OuterHandshake;
                Ok(())
            },
            ConnectOutcome::ConnectorFailed(why) => {
                self.phase = Phase::Closed;
                Err(WebSocketErrors::Unknown(why))
            },
            ConnectOutcome::Refused => {
                self.phase = Phase::Closed;
                Err(WebSocketErrors::ConnectionError)
            },
        }
    }

    /// Outer handshake: takes the first delivery for the server's open frame
    /// and hands back the frame that opens the inner layer. Anything but a
    /// valid open frame closes the transport. Outside of the outer handshake
    /// the call changes nothing and reports a handshake error.
    pub fn engineio_handshake(&mut self, incoming: &Incoming) -> (r: Result<
        String,
        WebSocketErrors,
    >)
        ensures
            final(self).token() == old(self).token(),
            final(self).phase() == after_open(old(self).phase(), incoming@),
            r is Ok <==> old(self).phase() == Phase::OuterHandshake && open_outcome(incoming@)
                is Ok,
            r matches Ok(frame) ==> frame@ == connect_frame(old(self).token()),
            r matches Err(e) ==> e@ == WebSocketFault::HandshakeError,
    {
        if self.phase != Phase::OuterHandshake {
            return Err(WebSocketErrors::HandshakeError);
        }
        let accepted = match incoming {
            Incoming::Text(text) => match decode(text.as_str()) {
                Some((opcode, json)) => opcode == OPEN && EngineIOHandshakeResponse::parse(
                    json.as_str(),
                ).is_some(),
                None => false,
            },
            _ => false,
        };
        if accepted {
            self.phase = Phase::InnerHandshake;
            let request = SocketIOHandshakeRequest::new(self.token.as_str());
            let body = request.to_json();
            Ok(encode(CONNECT, body.as_str()))
        } else {
            self.phase = Phase::Closed;
            Err(WebSocketErrors::HandshakeError)
        }
    }

    /// Inner handshake: takes the next delivery for the server's answer to
    /// the token. A valid connect frame makes the transport ready; anything
    /// else closes it. Outside of the inner handshake the call changes
    /// nothing and reports a handshake error.
    pub fn socketio_handshake(&mut self, incoming: &Incoming) -> (r: Result<(), WebSocketErrors>)
        ensures
            final(self).token() == old(self).token(),
            final(self).phase() == after_answer(old(self).phase(), incoming@),
            r is Ok <==> old(self).phase() == Phase::InnerHandshake && connect_outcome(incoming@)
                is Ok,
            old(self).phase() == Phase::InnerHandshake ==> (r matches Err(e) ==> connect_outcome(
                incoming@,
            ) == Err::<(), WebSocketFault>(e@)),
            old(self).phase() != Phase::InnerHandshake ==> (r matches Err(e) && e@
                == WebSocketFault::HandshakeError),
    {
        if self.phase != Phase::InnerHandshake {
            return Err(WebSocketErrors::HandshakeError);
        }
        let outcome = match incoming {
            Incoming::Text(text) => match decode(text.as_str()) {
                Some((opcode, json)) => {
                    if opcode == CONNECT_ERROR {
                        Err(WebSocketErrors::InvalidCredentials)
                    } else if opcode != CONNECT {
                        Err(WebSocketErrors::HandshakeError)
                    } else if SocketIOHandshakeResponse::parse(json.as_str()).is_some() {
                        Ok(())
                    } else {
                        Err(WebSocketErrors::HandshakeError)
                    }
                },
                None => Err(WebSocketErrors::HandshakeError),
            },
            _ => Err(WebSocketErrors::HandshakeError),
        };
        match outcome {
            Ok(()) => {
                self.phase = Phase::Ready;
            },
            Err(_) => {
                self.phase = Phase::Closed;
            },
        }
        outcome
    }

    /// Takes note that a frame of the handshake could not be sent, which
    /// closes the transport.
    pub fn handshake_failed(&mut self) -> (e: WebSocketErrors)
        ensures
            final(self).token() == old(self).token(),
            final(self).phase() == Phase::Closed,
            e@ == WebSocketFault::HandshakeError,
    {
        self.phase = Phase::Closed;
        WebSocketErrors::HandshakeError
    }

    /// The frame of a request, where the transport is ready; a connection
    /// error where it is not.
    pub fn send_event(&self, event: &EventRequest) -> (r: Result<String, EventError>)
        ensures
            r is Ok <==> self.phase() == Phase::Ready,
            r matches Ok(frame) ==> frame@ == event_frame(*event),
            r matches Err(e) ==> e@ == EventFault::ConnectionError,
    {
        if self.phase != Phase::Ready {
            return Err(EventError::ConnectionError);
        }
        let body = event.to_json();
        Ok(encode(EVENT, body.as_str()))
    }

    /// Takes the delivery that followed a request for its reply and opens
    /// the envelope.
    pub fn reply(incoming: &Incoming) -> (r: Result<EventResponse, EventError>)
        ensures
            match r {
                Ok(response) => reply_of(incoming@) == Ok::<(Seq<char>, Seq<char>), EventFault>(
                    (response.0@, response.1@),
                ),
                Err(e) => reply_of(incoming@) == Err::<(Seq<char>, Seq<char>), EventFault>(e@),
            },
    {
        match incoming {
            Incoming::Text(text) => match decode(text.as_str()) {
                Some((opcode, json)) => {
                    if opcode != EVENT {
                        Err(EventError::InvalidResponse)
                    } else {
                        EventResponse::parse(json.as_str())
                    }
                },
                None => Err(EventError::ConnectionError),
            },
            _ => Err(EventError::ConnectionError),
        }
    }

    /// The frame that asks the server for a room of the given kind.
    pub fn create_room(&self, room_type: CreateRoomRequest) -> (r: Result<String, EventError>)
        ensures
            r is Ok <==> self.phase() == Phase::Ready,
            r matches Ok(frame) ==> frame@ == request_frame(
                "create_room"@,
                EventTypes::CreateRoom(room_type),
            ),
            r matches Err(e) ==> e@ == EventFault::ConnectionError,
    {
        let request = EventRequest::new("create_room", &EventTypes::CreateRoom(room_type));
        self.send_event(&request)
    }

    /// Reads the reply to a `create_room` request: the id of the new room, or
    /// why there is none. A transport that is not ready reports a connection
    /// error.
    pub fn create_room_reply(&self, incoming: &Incoming) -> (r: Result<String, EventError>)
        ensures
            self.phase() != Phase::Ready ==> (r matches Err(e) && e@
                == EventFault::ConnectionError),
            self.phase() == Phase::Ready ==> match r {
                Ok(room_id) => created_room(incoming@) == Ok::<Seq<char>, EventFault>(room_id@),
                Err(e) => created_room(incoming@) == Err::<Seq<char>, EventFault>(e@),
            },
    {
        if self.phase != Phase::Ready {
            return Err(EventError::ConnectionError);
        }
        let response = Self::reply(incoming)?;
        if str_eq(response.get_type(), "room_created") {
            let parsed = match load_object(response.get_value()) {
                Some(members) => CreateRoomEvent::from_members(&members),
                None => None,
            };
            match parsed {
                Some(event) => {
                    if event.success {
                        Ok(event.room_id)
                    } else {
                        Err(EventError::InvalidResponse)
                    }
                },
                None => Err(
                    EventError::SerializingError(
                        "expected a room id and a success flag".to_owned(),
                    ),
                ),
            }
        } else if str_eq(response.get_type(), "create_error") {
            Err(EventError::CreateRoomError)
        } else {
            Err(EventError::InvalidResponse)
        }
    }

    /// The frame that asks the server to let the client into a room.
    pub fn join_room(&self, room_id: String) -> (r: Result<String, EventError>)
        ensures
            r is Ok <==> self.phase() == Phase::Ready,
            r matches Ok(frame) ==> frame@ == request_frame(
                "join_room"@,
                (EventTypes::JoinRoom { room_id }),
            ),
            r matches Err(e) ==> e@ == EventFault::ConnectionError,
    {
        let request = EventRequest::new("join_room", &EventTypes::JoinRoom { room_id });
        self.send_event(&request)
    }

    /// Reads the reply to a `join_room` request. A transport that is not ready
    /// reports a connection error.
    pub fn join_room_reply(&self, incoming: &Incoming) -> (r: Result<(), EventError>)
        ensures
            self.phase() != Phase::Ready ==> (r matches Err(e) && e@
                == EventFault::ConnectionError),
            self.phase() == Phase::Ready ==> match r {
                Ok(()) => joined_room(incoming@) is Ok,
                Err(e) => joined_room(incoming@) == Err::<(), EventFault>(e@),
            },
    {
        if self.phase != Phase::Ready {
            return Err(EventError::ConnectionError);
        }
        let response = Self::reply(incoming)?;
        if str_eq(response.get_type(), "joined_room") {
            Ok(())
        } else if str_eq(response.get_type(), "join_error") {
            Err(EventError::JoinRoomError)
        } else {
            Err(EventError::InvalidResponse)
        }
    }

    /// The frame with which a background task asks for its room: to be let
    /// into the room that is named, or for a new room that waits for a
    /// remote guest where none is named.
    pub fn room_request(&self, room_id: Option<String>) -> (r: Result<String, EventError>)
        ensures
            r is Ok <==> self.phase() == Phase::Ready,
            r matches Ok(frame) ==> frame@ == (match room_id {
                Some(id) => request_frame("join_room"@, (EventTypes::JoinRoom { room_id: id })),
                None => request_frame(
                    "create_room"@,
                    EventTypes::CreateRoom(CreateRoomRequest::of(false, true)),
                ),
            }),
            r matches Err(e) ==> e@ == EventFault::ConnectionError,
    {
        match room_id {
            Some(id) => self.join_room(id),
            None => self.create_room(CreateRoomRequest::multiplayer()),
        }
    }

    /// Reads the reply to the request of [`SocketIoClient::room_request`];
    /// `joining` says whether a room was named there. A transport that is
    /// not ready reports a connection error; a ready one gives what
    /// [`room_outcome`] says.
    pub fn room_reply(&self, joining: bool, incoming: &Incoming) -> (r: Result<
        Option<String>,
        EventError,
    >)
        ensures
            self.phase() != Phase::Ready ==> (r matches Err(e) && e@
                == EventFault::ConnectionError),
            self.phase() == Phase::Ready ==> match r {
                Ok(None) => room_outcome(joining, incoming@) == Ok::<
                    Option<Seq<char>>,
                    EventFault,
                >(None),
                Ok(Some(room_id)) => room_outcome(joining, incoming@) == Ok::<
                    Option<Seq<char>>,
                    EventFault,
                >(Some(room_id@)),
                Err(e) => room_outcome(joining, incoming@) == Err::<Option<Seq<char>>, EventFault>(
                    e@,
                ),
            },
    {
        if joining {
            match self.join_room_reply(incoming) {
                Ok(()) => Ok(None),
                Err(e) => Err(e),
            }
        } else {
            match self.create_room_reply(incoming) {
                Ok(room_id) => Ok(Some(room_id)),
                Err(e) => Err(e),
            }
        }
    }

    /// The frame that tells the server where the two paddles are asked to
    /// go. No reply follows it.
    pub fn paddle_move(&self, directions: (PaddleMoveDirection, PaddleMoveDirection)) -> (r:
        Result<String, EventError>)
        ensures
            r is Ok <==> self.phase() == Phase::Ready,
            r matches Ok(frame) ==> frame@ == request_frame(
                "paddle_move"@,
                (EventTypes::PaddleMove { move_p1: directions.0, move_p2: directions.1 }),
            ),
            r matches Err(e) ==> e@ == EventFault::ConnectionError,
    {
        let request = EventRequest::new(
            "paddle_move",
            &EventTypes::PaddleMove { move_p1: directions.0, move_p2: directions.1 },
        );
        self.send_event(&request)
    }

    /// The frame that asks the server to pause the game or to go on with it.
    /// No reply follows it.
    pub fn pause_game(&self, is_paused: bool) -> (r: Result<String, EventError>)
        ensures
            r is Ok <==> self.phase() == Phase::Ready,
            r matches Ok(frame) ==> frame@ == request_frame(
                "game_pause"@,
                EventTypes::GamePause(is_paused),
            ),
            r matches Err(e) ==> e@ == EventFault::ConnectionError,
    {
        let request = EventRequest::new("game_pause", &EventTypes::GamePause(is_paused));
        self.send_event(&request)
    }

    /// Gives the connection up. The driver half-closes the socket where the
    /// call succeeds. A transport that is closed already reports a
    /// connection error.
    pub fn close(&mut self) -> (r: Result<(), EventError>)
        ensures
            final(self).token() == old(self).token(),
            final(self).phase() == Phase::Closed,
            r is Ok <==> old(self).phase() != Phase::Closed,
            r matches Err(e) ==> e@ == EventFault::ConnectionError,
    {
        if self.phase == Phase::Closed {
            Err(EventError::ConnectionError)
        } else {
            self.phase = Phase::Closed;
            Ok(())
        }
    }

    /// Whether `received` is what a transport in the given phase makes of a
    /// delivery that no request asked for.
    ///
    /// A transport that is not ready answers nothing and reports a connection
    /// error. A ready transport answers the keep-alive probe with the bare
    /// frame `3` and shows it as a ping; nothing of the probe is read as
    /// JSON. It answers no other delivery. A delivery that shows a fault
    /// gives that fault. Any other delivery gives the event that its name
    /// stands for, with what its payload says.
    pub open spec fn delivers(phase: Phase, incoming: Delivery, received: Received) -> bool {
        if phase != Phase::Ready {
            &&& received.reply is None
            &&& received.event matches Err(e) && e@ == EventFault::ConnectionError
        } else if is_ping(incoming) {
            &&& received.event matches Ok(event) && event is Ping
            &&& received.reply matches Some(pong) && pong@ == "3"@
        } else {
            &&& received.reply is None
            &&& match received.event {
                Ok(event) => event_fault(incoming) is None && event.describes(
                    kind_of(event_of(incoming)->Ok_0.0)->0,
                    event_of(incoming)->Ok_0.1,
                ),
                Err(e) => event_fault(incoming) == Some(e@),
            }
        }
    }

    /// Takes a delivery that no request asked for; see
    /// [`SocketIoClient::delivers`].
    pub fn wait_for_events(&self, incoming: &Incoming) -> (r: Received)
        ensures
            Self::delivers(self.phase(), incoming@, r),
    {
        if self.phase != Phase::Ready {
            return Received { event: Err(EventError::ConnectionError), reply: None };
        }
        match incoming {
            Incoming::Text(text) => {
                if str_eq(text.as_str(), "2") {
                    return Received {
                        event: Ok(WebSocketEvents::Ping),
                        reply: Some("3".to_owned()),
                    };
                }
                let event = match decode(text.as_str()) {
                    Some((_opcode, json)) => match EventResponse::parse(json.as_str()) {
                        Ok(response) => WebSocketEvents::dispatch(
                            response.get_type(),
                            response.get_value(),
                        ),
                        Err(e) => Err(e),
                    },
                    None => Err(EventError::InvalidResponse),
                };
                Received { event, reply: None }
            },
            Incoming::Other => Received { event: Err(EventError::InvalidResponse), reply: None },
            Incoming::Lost => Received { event: Err(EventError::ConnectionError), reply: None },
        }
    }

    /// What the pong's fate makes of a ping: the ping itself where the pong
    /// went out, a connection error where it did not.
    pub fn pong_sent(sent: bool) -> (r: Result<WebSocketEvents, EventError>)
        ensures
            sent ==> (r matches Ok(event) && event is Ping),
            !sent ==> (r matches Err(e) && e@ == EventFault::ConnectionError),
    {
        if sent {
            Ok(WebSocketEvents::Ping)
        } else {
            Err(EventError::ConnectionError)
        }
    }
}

} // verus!
