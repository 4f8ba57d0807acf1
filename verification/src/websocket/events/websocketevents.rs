//! Inbound events and the shapes of their payloads.

use crate::json::{
    bool_member, count_member, document, load_object, lookup, lookup_bool, lookup_count,
    lookup_number, lookup_object, lookup_text, member, members_view, number_member,
    object_member, object_members, read, text_member, JsonMembers, JsonNode, JsonNodeView,
};
use crate::text::str_eq;
use crate::websocket::events::errors::EventError;
use vstd::prelude::*;

verus! {

/// The members of a JSON object, each value read as a document.
pub type Members = Seq<(Seq<char>, JsonNodeView)>;

/// The server's word that the client is in a room.
#[derive(Debug, Clone, PartialEq, Eq)]
pub struct JoinedRoomEvent {
    pub room_id: String,
    pub message: String,
    pub success: bool,
}

impl JoinedRoomEvent {
    /// Whether the members fit: strings `roomId` and `message`, a truth
    /// value `success`.
    pub open spec fn fits(members: Members) -> bool {
        &&& text_member(members, "roomId"@) is Some
        &&& text_member(members, "message"@) is Some
        &&& bool_member(members, "success"@) is Some
    }

    /// Whether the event holds what the members say.
    pub open spec fn describes(&self, members: Members) -> bool {
        &&& text_member(members, "roomId"@) == Some(self.room_id@)
        &&& text_member(members, "message"@) == Some(self.message@)
        &&& bool_member(members, "success"@) == Some(self.success)
    }

    /// Takes the event out of the members of its payload.
    pub fn from_members(members: &JsonMembers) -> (r: Option<Self>)
        ensures
            r is Some <==> Self::fits(members_view(members@)),
            r matches Some(event) ==> event.describes(members_view(members@)),
    {
        match (
            lookup_text(members, "roomId"),
            lookup_text(members, "message"),
            lookup_bool(members, "success"),
        ) {
            (Some(room_id), Some(message), Some(success)) => Some(
                Self { room_id: room_id.clone(), message: message.clone(), success },
            ),
            _ => None,
        }
    }
}

/// The server's word that a room was made.
#[derive(Debug, Clone, PartialEq, Eq)]
pub struct CreateRoomEvent {
    pub room_id: String,
    pub success: bool,
}

impl CreateRoomEvent {
    /// Whether the members fit: a string `roomId`, a truth value `success`.
    pub open spec fn fits(members: Members) -> bool {
        &&& text_member(members, "roomId"@) is Some
        &&& bool_member(members, "success"@) is Some
    }

    /// Whether the event holds what the members say.
    pub open spec fn describes(&self, members: Members) -> bool {
        &&& text_member(members, "roomId"@) == Some(self.room_id@)
        &&& bool_member(members, "success"@) == Some(self.success)
    }

    /// Takes the event out of the members of its payload.
    pub fn from_members(members: &JsonMembers) -> (r: Option<Self>)
        ensures
            r is Some <==> Self::fits(members_view(members@)),
            r matches Some(event) ==> event.describes(members_view(members@)),
    {
        match (lookup_text(members, "roomId"), lookup_bool(members, "success")) {
            (Some(room_id), Some(success)) => Some(Self { room_id: room_id.clone(), success }),
            _ => None,
        }
    }
}

/// A player's id, which the server writes as a number or as a string.
#[derive(Debug, Clone, PartialEq, Eq)]
pub enum NumberString {
    Number(u32),
    String(String),
}

impl NumberString {
    /// Whether a document fits: a non-negative integer below 2^32, or a
    /// string.
    pub open spec fn fits(node: JsonNodeView) -> bool {
        match node {
            JsonNodeView::Number(Some(n), _) => n <= u32::MAX,
            JsonNodeView::Text(_) => true,
            _ => false,
        }
    }

    /// Whether the id holds what the document says.
    pub open spec fn describes(&self, node: JsonNodeView) -> bool {
        match (self, node) {
            (NumberString::Number(id), JsonNodeView::Number(Some(n), _)) => n == *id,
            (NumberString::String(id), JsonNodeView::Text(s)) => s == id@,
            _ => false,
        }
    }

    /// Takes the id out of a document.
    pub fn from_node(node: &JsonNode) -> (r: Option<Self>)
        ensures
            r is Some <==> Self::fits(node@),
            r matches Some(id) ==> id.describes(node@),
    {
        match node {
            JsonNode::Number(Some(n), _) => if *n <= u32::MAX as u64 {
                Some(NumberString::Number(*n as u32))
            } else {
                None
            },
            JsonNode::Text(s) => Some(NumberString::String(s.clone())),
            _ => None,
        }
    }
}

/// One of the two players of a game.
#[derive(Debug, Clone, PartialEq, Eq)]
pub struct GameStartEventPlayer {
    pub id: NumberString,
    pub nickname: String,
}

impl GameStartEventPlayer {
    /// Whether the members fit: an `id` and a string `nickname`.
    pub open spec fn fits(members: Members) -> bool {
        &&& member(members, "id"@) matches Some(id) && NumberString::fits(id)
        &&& text_member(members, "nickname"@) is Some
    }

    /// Whether the player holds what the members say.
    pub open spec fn describes(&self, members: Members) -> bool {
        &&& member(members, "id"@) matches Some(id) && self.id.describes(id)
        &&& text_member(members, "nickname"@) == Some(self.nickname@)
    }

    /// Takes the player out of the members of its object.
    pub fn from_members(members: &JsonMembers) -> (r: Option<Self>)
        ensures
            r is Some <==> Self::fits(members_view(members@)),
            r matches Some(player) ==> player.describes(members_view(members@)),
    {
        let id = match lookup(members, "id") {
            Some(node) => NumberString::from_node(node),
            None => None,
        };
        match (id, lookup_text(members, "nickname")) {
            (Some(id), Some(nickname)) => Some(Self { id, nickname: nickname.clone() }),
            _ => None,
        }
    }
}

/// The state in which a game starts. Positions and speeds are kept as the
/// text of their numbers.
#[derive(Debug, Clone, PartialEq, Eq)]
pub struct GameStartEvent {
    pub ball_x: String,
    pub ball_y: String,
    pub ball_vx: String,
    pub ball_vy: String,
    pub paddle1_y: String,
    pub paddle2_y: String,
    pub owner_score: usize,
    pub guest_score: usize,
    pub owner: GameStartEventPlayer,
    pub guest: GameStartEventPlayer,
    pub is_owner: bool,
    pub success: bool,
}

impl GameStartEvent {
    /// Whether the members fit: numbers `ballX`, `ballY`, `ballVX`, `ballVY`,
    /// `paddle1Y` and `paddle2Y`; counts `ownerScore` and `guestScore`;
    /// players `owner` and `guest`; truth values `isOwner` and `success`.
    pub open spec fn fits(members: Members) -> bool {
        &&& number_member(members, "ballX"@) is Some
        &&& number_member(members, "ballY"@) is Some
        &&& number_member(members, "ballVX"@) is Some
        &&& number_member(members, "ballVY"@) is Some
        &&& number_member(members, "paddle1Y"@) is Some
        &&& number_member(members, "paddle2Y"@) is Some
        &&& count_member(members, "ownerScore"@) is Some
        &&& count_member(members, "guestScore"@) is Some
        &&& object_member(members, "owner"@) matches Some(owner) && GameStartEventPlayer::fits(
            owner,
        )
        &&& object_member(members, "guest"@) matches Some(guest) && GameStartEventPlayer::fits(
            guest,
        )
        &&& bool_member(members, "isOwner"@) is Some
        &&& bool_member(members, "success"@) is Some
    }

    /// Whether the event holds what the members say.
    pub open spec fn describes(&self, members: Members) -> bool {
        &&& number_member(members, "ballX"@) == Some(self.ball_x@)
        &&& number_member(members, "ballY"@) == Some(self.ball_y@)
        &&& number_member(members, "ballVX"@) == Some(self.ball_vx@)
        &&& number_member(members, "ballVY"@) == Some(self.ball_vy@)
        &&& number_member(members, "paddle1Y"@) == Some(self.paddle1_y@)
        &&& number_member(members, "paddle2Y"@) == Some(self.paddle2_y@)
        &&& count_member(members, "ownerScore"@) == Some(self.owner_score)
        &&& count_member(members, "guestScore"@) == Some(self.guest_score)
        &&& object_member(members, "owner"@) matches Some(owner) && self.owner.describes(owner)
        &&& object_member(members, "guest"@) matches Some(guest) && self.guest.describes(guest)
        &&& bool_member(members, "isOwner"@) == Some(self.is_owner)
        &&& bool_member(members, "success"@) == Some(self.success)
    }

    /// Takes the event out of the members of its payload.
    pub fn from_members(members: &JsonMembers) -> (r: Option<Self>)
        ensures
            r is Some <==> Self::fits(members_view(members@)),
            r matches Some(event) ==> event.describes(members_view(members@)),
    {
        let owner = match lookup_object(members, "owner") {
            Some(inner) => GameStartEventPlayer::from_members(&inner),
            None => None,
        };
        let guest = match lookup_object(members, "guest") {
            Some(inner) => GameStartEventPlayer::from_members(&inner),
            None => None,
        };
        let ball = (
            lookup_number(members, "ballX"),
            lookup_number(members, "ballY"),
            lookup_number(members, "ballVX"),
            lookup_number(members, "ballVY"),
        );
        let paddles = (lookup_number(members, "paddle1Y"), lookup_number(members, "paddle2Y"));
        let scores = (lookup_count(members, "ownerScore"), lookup_count(members, "guestScore"));
        let flags = (lookup_bool(members, "isOwner"), lookup_bool(members, "success"));
        match (ball, paddles, scores, owner, guest, flags) {
            (
                (Some(ball_x), Some(ball_y), Some(ball_vx), Some(ball_vy)),
                (Some(paddle1_y), Some(paddle2_y)),
                (Some(owner_score), Some(guest_score)),
                Some(owner),
                Some(guest),
                (Some(is_owner), Some(success)),
            ) => Some(
                Self {
                    ball_x: ball_x.clone(),
                    ball_y: ball_y.clone(),
                    ball_vx: ball_vx.clone(),
                    ball_vy: ball_vy.clone(),
                    paddle1_y: paddle1_y.clone(),
                    paddle2_y: paddle2_y.clone(),
                    owner_score,
                    guest_score,
                    owner,
                    guest,
                    is_owner,
                    success,
                },
            ),
            _ => None,
        }
    }
}

/// The state of a running game. Positions are kept as the text of their
/// numbers.
#[derive(Debug, Clone, PartialEq, Eq)]
pub struct GameStateEvent {
    pub ball_x: String,
    pub ball_y: String,
    pub paddle1_y: String,
    pub paddle2_y: String,
    pub owner_score: usize,
    pub guest_score: usize,
}

impl GameStateEvent {
    /// Whether the members fit: numbers `ballX`, `ballY`, `paddle1Y` and
    /// `paddle2Y`; counts `ownerScore` and `guestScore`.
    pub open spec fn fits(members: Members) -> bool {
        &&& number_member(members, "ballX"@) is Some
        &&& number_member(members, "ballY"@) is Some
        &&& number_member(members, "paddle1Y"@) is Some
        &&& number_member(members, "paddle2Y"@) is Some
        &&& count_member(members, "ownerScore"@) is Some
        &&& count_member(members, "guestScore"@) is Some
    }

    /// Whether the event holds what the members say.
    pub open spec fn describes(&self, members: Members) -> bool {
        &&& number_member(members, "ballX"@) == Some(self.ball_x@)
        &&& number_member(members, "ballY"@) == Some(self.ball_y@)
        &&& number_member(members, "paddle1Y"@) == Some(self.paddle1_y@)
        &&& number_member(members, "paddle2Y"@) == Some(self.paddle2_y@)
        &&& count_member(members, "ownerScore"@) == Some(self.owner_score)
        &&& count_member(members, "guestScore"@) == Some(self.guest_score)
    }

    /// Takes the event out of the members of its payload.
    pub fn from_members(members: &JsonMembers) -> (r: Option<Self>)
        ensures
            r is Some <==> Self::fits(members_view(members@)),
            r matches Some(event) ==> event.describes(members_view(members@)),
    {
        let ball = (lookup_number(members, "ballX"), lookup_number(members, "ballY"));
        let paddles = (lookup_number(members, "paddle1Y"), lookup_number(members, "paddle2Y"));
        let scores = (lookup_count(members, "ownerScore"), lookup_count(members, "guestScore"));
        match (ball, paddles, scores) {
            (
                (Some(ball_x), Some(ball_y)),
                (Some(paddle1_y), Some(paddle2_y)),
                (Some(owner_score), Some(guest_score)),
            ) => Some(
                Self {
                    ball_x: ball_x.clone(),
                    ball_y: ball_y.clone(),
                    paddle1_y: paddle1_y.clone(),
                    paddle2_y: paddle2_y.clone(),
                    owner_score,
                    guest_score,
                },
            ),
            _ => None,
        }
    }
}

/// The server's word that the game was called off.
#[derive(Debug, Clone, PartialEq, Eq)]
pub struct GameAbortedEvent {
    pub message: String,
}

impl GameAbortedEvent {
    /// Whether the members fit: a string `message`.
    pub open spec fn fits(members: Members) -> bool {
        text_member(members, "message"@) is Some
    }

    /// Whether the event holds what the members say.
    pub open spec fn describes(&self, members: Members) -> bool {
        text_member(members, "message"@) == Some(self.message@)
    }

    /// Takes the event out of the members of its payload.
    pub fn from_members(members: &JsonMembers) -> (r: Option<Self>)
        ensures
            r is Some <==> Self::fits(members_view(members@)),
            r matches Some(event) ==> event.describes(members_view(members@)),
    {
        match lookup_text(members, "message") {
            Some(message) => Some(Self { message: message.clone() }),
            None => None,
        }
    }
}

/// The scores at the end of a game.
#[derive(Debug, Clone, Copy, PartialEq, Eq)]
pub struct FinalScore {
    pub owner: usize,
    pub guest: usize,
}

impl FinalScore {
    /// Whether the members fit: counts `owner` and `guest`.
    pub open spec fn fits(members: Members) -> bool {
        &&& count_member(members, "owner"@) is Some
        &&& count_member(members, "guest"@) is Some
    }

    /// Whether the scores are what the members say.
    pub open spec fn describes(&self, members: Members) -> bool {
        &&& count_member(members, "owner"@) == Some(self.owner)
        &&& count_member(members, "guest"@) == Some(self.guest)
    }

    /// Takes the scores out of the members of their object.
    pub fn from_members(members: &JsonMembers) -> (r: Option<Self>)
        ensures
            r is Some <==> Self::fits(members_view(members@)),
            r matches Some(score) ==> score.describes(members_view(members@)),
    {
        match (lookup_count(members, "owner"), lookup_count(members, "guest")) {
            (Some(owner), Some(guest)) => Some(Self { owner, guest }),
            _ => None,
        }
    }
}

/// The server's word that the game is over.
#[derive(Debug, Clone, PartialEq, Eq)]
pub struct GameOverEvent {
    pub winner: String,
    pub final_score: FinalScore,
    pub message: String,
}

impl GameOverEvent {
    /// Whether the members fit: strings `winner` and `message`, scores
    /// `finalScore`.
    pub open spec fn fits(members: Members) -> bool {
        &&& text_member(members, "winner"@) is Some
        &&& object_member(members, "finalScore"@) matches Some(score) && FinalScore::fits(score)
        &&& text_member(members, "message"@) is Some
    }

    /// Whether the event holds what the members say.
    pub open spec fn describes(&self, members: Members) -> bool {
        &&& text_member(members, "winner"@) == Some(self.winner@)
        &&& object_member(members, "finalScore"@) matches Some(score)
            && self.final_score.describes(score)
        &&& text_member(members, "message"@) == Some(self.message@)
    }

    /// Takes the event out of the members of its payload.
    pub fn from_members(members: &JsonMembers) -> (r: Option<Self>)
        ensures
            r is Some <==> Self::fits(members_view(members@)),
            r matches Some(event) ==> event.describes(members_view(members@)),
    {
        let final_score = match lookup_object(members, "finalScore") {
            Some(inner) => FinalScore::from_members(&inner),
            None => None,
        };
        match (lookup_text(members, "winner"), final_score, lookup_text(members, "message")) {
            (Some(winner), Some(final_score), Some(message)) => Some(
                Self { winner: winner.clone(), final_score, message: message.clone() },
            ),
            _ => None,
        }
    }
}

/// What the server can tell the client outside of a request's reply.
#[derive(Debug, Clone, PartialEq, Eq)]
pub enum WebSocketEvents {
    JoinedRoom(JoinedRoomEvent),
    GameStart(GameStartEvent),
    GameState(GameStateEvent),
    GamePauseState(bool),
    GameAborted(GameAbortedEvent),
    GameOver(GameOverEvent),
    Ping,
}

/// The kinds of event that carry a payload.
#[derive(Debug, Clone, Copy, PartialEq, Eq, Structural)]
pub enum EventKind {
    JoinedRoom,
    GameStart,
    GameState,
    GamePauseState,
    GameAborted,
    GameOver,
}

/// The kind of event that a name stands for.
pub open spec fn kind_of(name: Seq<char>) -> Option<EventKind> {
    if name == "joined_room"@ {
        Some(EventKind::JoinedRoom)
    } else if name == "game_start"@ {
        Some(EventKind::GameStart)
    } else if name == "game_state"@ {
        Some(EventKind::GameState)
    } else if name == "game_pause_state"@ {
        Some(EventKind::GamePauseState)
    } else if name == "game_aborted"@ {
        Some(EventKind::GameAborted)
    } else if name == "game_over"@ {
        Some(EventKind::GameOver)
    } else {
        None
    }
}

/// The kind of event that a name stands for.
pub fn event_kind(name: &str) -> (kind: Option<EventKind>)
    ensures
        kind == kind_of(name@),
{
    if str_eq(name, "joined_room") {
        Some(EventKind::JoinedRoom)
    } else if str_eq(name, "game_start") {
        Some(EventKind::GameStart)
    } else if str_eq(name, "game_state") {
        Some(EventKind::GameState)
    } else if str_eq(name, "game_pause_state") {
        Some(EventKind::GamePauseState)
    } else if str_eq(name, "game_aborted") {
        Some(EventKind::GameAborted)
    } else if str_eq(name, "game_over") {
        Some(EventKind::GameOver)
    } else {
        None
    }
}

impl WebSocketEvents {
    /// Whether a payload of the given kind can be read from a JSON text.
    pub open spec fn readable(kind: EventKind, payload: Seq<char>) -> bool {
        match kind {
            EventKind::JoinedRoom => object_members(payload) matches Some(m)
                && JoinedRoomEvent::fits(m),
            EventKind::GameStart => object_members(payload) matches Some(m)
                && GameStartEvent::fits(m),
            EventKind::GameState => object_members(payload) matches Some(m)
                && GameStateEvent::fits(m),
            EventKind::GamePauseState => document(payload) matches Some(node) && node is Bool,
            EventKind::GameAborted => object_members(payload) matches Some(m)
                && GameAbortedEvent::fits(m),
            EventKind::GameOver => object_members(payload) matches Some(m)
                && GameOverEvent::fits(m),
        }
    }

    /// Whether the event is of the given kind and holds what the payload
    /// says.
    pub open spec fn describes(&self, kind: EventKind, payload: Seq<char>) -> bool {
        match self {
            WebSocketEvents::JoinedRoom(event) => kind == EventKind::JoinedRoom && event.describes(
                object_members(payload)->0,
            ),
            WebSocketEvents::GameStart(event) => kind == EventKind::GameStart && event.describes(
                object_members(payload)->0,
            ),
            WebSocketEvents::GameState(event) => kind == EventKind::GameState && event.describes(
                object_members(payload)->0,
            ),
            WebSocketEvents::GamePauseState(paused) => kind == EventKind::GamePauseState
                && document(payload) == Some(JsonNodeView::Bool(*paused)),
            WebSocketEvents::GameAborted(event) => kind == EventKind::GameAborted
                && event.describes(object_members(payload)->0),
            WebSocketEvents::GameOver(event) => kind == EventKind::GameOver && event.describes(
                object_members(payload)->0,
            ),
            WebSocketEvents::Ping => false,
        }
    }

    /// Reads the payload of an event of the given kind.
    pub fn read_payload(kind: EventKind, payload: &str) -> (r: Option<Self>)
        ensures
            r is Some <==> Self::readable(kind, payload@),
            r matches Some(event) ==> event.describes(kind, payload@),
    {
        match kind {
            EventKind::JoinedRoom => match load_object(payload) {
                Some(members) => match JoinedRoomEvent::from_members(&members) {
                    Some(event) => Some(WebSocketEvents::JoinedRoom(event)),
                    None => None,
                },
                None => None,
            },
            EventKind::GameStart => match load_object(payload) {
                Some(members) => match GameStartEvent::from_members(&members) {
                    Some(event) => Some(WebSocketEvents::GameStart(event)),
                    None => None,
                },
                None => None,
            },
            EventKind::GameState => match load_object(payload) {
                Some(members) => match GameStateEvent::from_members(&members) {
                    Some(event) => Some(WebSocketEvents::GameState(event)),
                    None => None,
                },
                None => None,
            },
            EventKind::GamePauseState => match read(payload) {
                Some(JsonNode::Bool(paused)) => Some(WebSocketEvents::GamePauseState(paused)),
                _ => None,
            },
            EventKind::GameAborted => match load_object(payload) {
                Some(members) => match GameAbortedEvent::from_members(&members) {
                    Some(event) => Some(WebSocketEvents::GameAborted(event)),
                    None => None,
                },
                None => None,
            },
            EventKind::GameOver => match load_object(payload) {
                Some(members) => match GameOverEvent::from_members(&members) {
                    Some(event) => Some(WebSocketEvents::GameOver(event)),
                    None => None,
                },
                None => None,
            },
        }
    }

    /// Turns an envelope into a typed event: the name says which payload to
    /// expect. A name outside the closed set and a payload that does not fit
    /// are both an invalid response.
    pub fn dispatch(name: &str, payload: &str) -> (r: Result<Self, EventError>)
        ensures
            r is Ok <==> (kind_of(name@) matches Some(kind) && Self::readable(kind, payload@)),
            r matches Ok(event) ==> event.describes(kind_of(name@)->0, payload@),
            r matches Err(e) ==> e is InvalidResponse,
    {
        match event_kind(name) {
            Some(kind) => match Self::read_payload(kind, payload) {
                Some(event) => Ok(event),
                None => Err(EventError::InvalidResponse),
            },
            None => Err(EventError::InvalidResponse),
        }
    }
}

} // verus!
