//! Outbound requests and their wire text.

use crate::json::{json_string, write_string};
use vstd::prelude::*;
use vstd::string::*;

verus! {

/// The payload of a `create_room` request.
#[derive(Clone, Copy, Debug, PartialEq, Eq)]
pub struct CreateRoomRequest {
    is_single_player: bool,
    is_remote: bool,
}

impl CreateRoomRequest {
    /// Whether the room is played against the server.
    pub closed spec fn single_player(&self) -> bool {
        self.is_single_player
    }

    /// Whether the room is open to a remote guest.
    pub closed spec fn remote(&self) -> bool {
        self.is_remote
    }

    /// The request with the given two answers.
    pub closed spec fn of(single_player: bool, remote: bool) -> Self {
        Self { is_single_player: single_player, is_remote: remote }
    }

    /// A request is the two answers that it was made of, and nothing more.
    pub proof fn lemma_of(single_player: bool, remote: bool)
        ensures
            Self::of(single_player, remote).single_player() == single_player,
            Self::of(single_player, remote).remote() == remote,
            forall|room: Self| room == Self::of(room.single_player(), room.remote()),
    {
    }

    /// A room for one local player.
    pub fn singleplayer() -> (r: Self)
        ensures
            r == Self::of(true, false),
            r.single_player(),
            !r.remote(),
    {
        Self { is_single_player: true, is_remote: false }
    }

    /// A room that waits for a remote guest.
    pub fn multiplayer() -> (r: Self)
        ensures
            r == Self::of(false, true),
            !r.single_player(),
            r.remote(),
    {
        Self { is_single_player: false, is_remote: true }
    }

    /// The JSON object `{"isSinglePlayer":..,"isRemote":..}`.
    pub open spec fn wire(&self) -> Seq<char> {
        "{\"isSinglePlayer\":"@ + bool_text(self.single_player()) + ",\"isRemote\":"@ + bool_text(
            self.remote(),
        ) + "}"@
    }

    /// Writes the payload as JSON.
    pub fn to_json(&self) -> (r: String)
        ensures
            r@ == self.wire(),
    {
        let mut r = "{\"isSinglePlayer\":".to_owned();
        r.append(bool_str(self.is_single_player));
        r.append(",\"isRemote\":");
        r.append(bool_str(self.is_remote));
        r.append("}");
        r
    }
}

/// The JSON text of a truth value.
pub open spec fn bool_text(b: bool) -> Seq<char> {
    if b {
        "true"@
    } else {
        "false"@
    }
}

/// The JSON text of a truth value.
pub fn bool_str(b: bool) -> (s: &'static str)
    ensures
        s@ == bool_text(b),
{
    if b {
        "true"
    } else {
        "false"
    }
}

/// Where a paddle is asked to go.
#[derive(Clone, Copy, Debug, PartialEq, Eq, Structural)]
pub enum PaddleMoveDirection {
    Up,
    Down,
    /// No movement; written `"none"` on the wire.
    Idle,
}

impl PaddleMoveDirection {
    /// The JSON string `"up"`, `"down"` or `"none"`.
    pub open spec fn wire(&self) -> Seq<char> {
        match self {
            PaddleMoveDirection::Up => "\"up\""@,
            PaddleMoveDirection::Down => "\"down\""@,
            PaddleMoveDirection::Idle => "\"none\""@,
        }
    }

    /// The direction as a JSON string.
    pub fn to_json(&self) -> (s: &'static str)
        ensures
            s@ == self.wire(),
    {
        match self {
            PaddleMoveDirection::Up => "\"up\"",
            PaddleMoveDirection::Down => "\"down\"",
            PaddleMoveDirection::Idle => "\"none\"",
        }
    }
}

/// The payloads that the client sends.
#[derive(Debug)]
pub enum EventTypes {
    CreateRoom(CreateRoomRequest),
    JoinRoom { room_id: String },
    PaddleMove { move_p1: PaddleMoveDirection, move_p2: PaddleMoveDirection },
    GamePause(bool),
    LeaveRoom,
}

impl Clone for EventTypes {
    fn clone(&self) -> (r: Self)
        ensures
            r == *self,
    {
        match self {
            EventTypes::CreateRoom(room) => EventTypes::CreateRoom(*room),
            EventTypes::JoinRoom { room_id } => EventTypes::JoinRoom { room_id: room_id.clone() },
            EventTypes::PaddleMove { move_p1, move_p2 } => EventTypes::PaddleMove {
                move_p1: *move_p1,
                move_p2: *move_p2,
            },
            EventTypes::GamePause(paused) => EventTypes::GamePause(*paused),
            EventTypes::LeaveRoom => EventTypes::LeaveRoom,
        }
    }
}

impl EventTypes {
    /// The JSON text of the payload: an object for a room or a paddle
    /// request, a bare truth value for a pause request, `null` where the
    /// request carries nothing.
    pub open spec fn wire(&self) -> Seq<char> {
        match self {
            EventTypes::CreateRoom(room) => room.wire(),
            EventTypes::JoinRoom { room_id } => "{\"roomId\":"@ + json_string(room_id@) + "}"@,
            EventTypes::PaddleMove { move_p1, move_p2 } => "{\"moveP1\":"@ + move_p1.wire()
                + ",\"moveP2\":"@ + move_p2.wire() + "}"@,
            EventTypes::GamePause(paused) => bool_text(*paused),
            EventTypes::LeaveRoom => "null"@,
        }
    }

    /// Writes the payload as JSON.
    pub fn to_json(&self) -> (r: String)
        ensures
            r@ == self.wire(),
    {
        match self {
            EventTypes::CreateRoom(room) => room.to_json(),
            EventTypes::JoinRoom { room_id } => {
                let mut r = "{\"roomId\":".to_owned();
                let quoted = write_string(room_id.as_str());
                r.append(quoted.as_str());
                r.append("}");
                r
            },
            EventTypes::PaddleMove { move_p1, move_p2 } => {
                let mut r = "{\"moveP1\":".to_owned();
                r.append(move_p1.to_json());
                r.append(",\"moveP2\":");
                r.append(move_p2.to_json());
                r.append("}");
                r
            },
            EventTypes::GamePause(paused) => bool_str(*paused).to_owned(),
            EventTypes::LeaveRoom => "null".to_owned(),
        }
    }
}

/// A request as it goes on the wire: the event's name, then its payload.
#[derive(Debug)]
pub struct EventRequest(pub String, pub EventTypes);

impl EventRequest {
    /// A request with the given name and a copy of the given payload.
    pub fn new(event_name: &str, data: &EventTypes) -> (r: Self)
        ensures
            r.0@ == event_name@,
            r.1 == *data,
    {
        Self(event_name.to_owned(), data.clone())
    }

    /// The JSON array `[name,payload]`.
    pub open spec fn wire(&self) -> Seq<char> {
        "["@ + json_string(self.0@) + ","@ + self.1.wire() + "]"@
    }

    /// Writes the request as JSON.
    pub fn to_json(&self) -> (r: String)
        ensures
            r@ == self.wire(),
    {
        let mut r = "[".to_owned();
        let name = write_string(self.0.as_str());
        r.append(name.as_str());
        r.append(",");
        let payload = self.1.to_json();
        r.append(payload.as_str());
        r.append("]");
        r
    }
}

/// The text of a JSON array opens with `[`.
pub proof fn lemma_request_opens_json(request: EventRequest)
    ensures
        request.wire().len() > 0,
        request.wire()[0] == '[',
{
    reveal_strlit("[");
}

} // verus!
