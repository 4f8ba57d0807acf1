//! The session orchestrator.
//!
//! [`App`] owns the session: the host, the bearer token, the page on the
//! screen and the one socket slot. It waits for nothing and performs nothing.
//! A driver waits on the socket, the keyboard, the channel of background
//! results and the ticker, hands each event to the matching method, and
//! carries out the [`Command`] that the method hands back.

use crate::auth::{
    BoolOrString, LoginErrors, LoginResponse, NicknameResponse, RedirectResponse, TotpErrors,
};
use crate::ui::game::Game;
use crate::ui::game_lobby::GameLobbyPage;
use crate::ui::game_over::GameOverPage;
use crate::ui::gamemode::{GameModePage, GameModes};
use crate::ui::host_selector::HostSelectorPage;
use crate::ui::input::KeyEvent;
use crate::ui::join_room::JoinRoomPage;
use crate::ui::login::LoginPage;
use crate::ui::nickname_page::NicknamePage;
use crate::ui::pages::{LoginType, PageKind, PageResults, Pages};
use crate::ui::totp::TotpPage;
use crate::websocket::errors::WebSocketErrors;
use crate::websocket::events::errors::{EventError, EventFault};
use crate::websocket::events::request::{EventTypes, PaddleMoveDirection};
use crate::websocket::events::websocketevents::WebSocketEvents;
use crate::websocket::{request_frame, Incoming, Phase, Received, SocketIoClient};
use std::time::Instant;
use vstd::prelude::*;
use vstd::string::*;

verus! {

/// What ends the program.
#[derive(Debug, Clone, PartialEq, Eq)]
pub enum FatalErrors {
    RenderingError,
    /// The terminal's keyboard flags could not be read or set; the string is
    /// the terminal's own word on it.
    KeyboardEnhancementFlagsError(String),
}

impl FatalErrors {
    /// The sentence shown for the error.
    pub open spec fn text(&self) -> Seq<char> {
        match self {
            FatalErrors::RenderingError => "Unable to render frame on screen"@,
            FatalErrors::KeyboardEnhancementFlagsError(err) =>
                "Unable to query or toggle keyboard enhancement flags: "@ + err@,
        }
    }

    /// The sentence shown for the error.
    pub fn message(&self) -> (r: String)
        ensures
            r@ == self.text(),
    {
        match self {
            FatalErrors::RenderingError => "Unable to render frame on screen".to_owned(),
            FatalErrors::KeyboardEnhancementFlagsError(err) => {
                let mut r = "Unable to query or toggle keyboard enhancement flags: ".to_owned();
                r.append(err.as_str());
                r
            },
        }
    }
}

/// What the session holds in its one socket slot.
#[derive(Debug)]
pub enum SocketSlot {
    /// Nothing.
    NoSocket,
    /// The transport of a game.
    GameTransport(SocketIoClient),
    /// The local listener that waits for the browser to come back from a
    /// remote login.
    PendingOAuthListener,
}

/// What a background task reports when it is done.
#[derive(Debug)]
pub enum ChannelEvents {
    LoginSuccess((String, String)),
    LoginError(LoginErrors),
    NicknameError(LoginErrors),
    TotpRequired((String, String)),
    TotpSuccess(String),
    TotpError(TotpErrors),
    RemoteRedirect(String),
    RemoteRedirectCallback((String, bool)),
    RemoteRedirectError(LoginErrors),
    RoomCreated((SocketIoClient, String)),
    RoomJoined(SocketIoClient),
    RoomJoinError(EventError),
}

/// Work that the driver runs in the background. Each task ends by putting
/// exactly one [`ChannelEvents`] into the channel.
#[derive(Debug, PartialEq, Eq)]
pub enum Task {
    Login { host: String, email: String, password: String },
    Login2fa { host: String, auth_token: String, totp_code: String },
    SetNickname { host: String, token: String, nickname: String },
    RemoteLogin { host: String, port: u16 },
    SinglePlayer { endpoint: String, token: String },
    CreateRoom { endpoint: String, token: String },
    JoinRoom { endpoint: String, token: String, room_id: String },
}

/// What the driver does after an event has been handled.
#[derive(Debug)]
pub enum Command {
    /// Nothing.
    Idle,
    /// Leave the loop.
    Exit,
    /// Start a background task.
    Spawn(Task),
    /// Bind the local listener for a remote login to the given host, and
    /// report with [`App::listener_bound`].
    BindListener(String),
    /// Open the address in the user's browser, and report a failure with
    /// [`App::browser_failed`].
    OpenBrowser(String),
    /// Send the frame on the game's socket, and report a failure with
    /// [`App::send_failed`].
    Send(String),
    /// Send the keep-alive answer on the game's socket, and report a failure
    /// with [`App::pong_failed`].
    Pong(String),
    /// Take the socket that came with the event into the slot, in place of
    /// whatever is held there.
    Attach,
    /// Half-close the game's socket, then let go of it.
    CloseSocket,
    /// Let go of what the slot holds.
    DropSocket,
    /// Put an event into the channel.
    Notify(ChannelEvents),
}

/// How the attempt to bind the local listener ended.
#[derive(Debug, Clone, Copy, PartialEq, Eq, Structural)]
pub enum Binding {
    /// The listener is bound to this port.
    Bound(u16),
    /// The listener could not be bound.
    BindFailed,
    /// The listener is bound, but it does not say to which port.
    NoPort,
}

/// How often the ticker fires in a second.
pub const TICKS_PER_SECOND: u64 = 60;

/// How many background results the channel holds before a task that reports
/// has to wait.
pub const CHANNEL_DEPTH: usize = 8;

/// The time between two ticks, in microseconds.
pub fn tick_micros() -> (micros: u64)
    ensures
        micros == 1_000_000u64 / TICKS_PER_SECOND,
{
    1_000_000 / TICKS_PER_SECOND
}

/// The session.
#[derive(Debug)]
pub struct App {
    pub host: Option<String>,
    pub auth_token: Option<String>,
    pub current_page: Pages,
    pub socket: SocketSlot,
    pub kitty_protocol_support: bool,
    pub debug: bool,
}

/// The port of the game server: 3000 in a debug build, 8443 otherwise.
pub open spec fn port_text(debug: bool) -> Seq<char> {
    if debug {
        "3000"@
    } else {
        "8443"@
    }
}

/// The address of the game server's socket.
pub open spec fn endpoint(host: Seq<char>, token: Seq<char>, debug: bool) -> Seq<char> {
    "wss://"@ + host + ":"@ + port_text(debug) + "/socket.io/?token="@ + token
        + "&EIO=4&transport=websocket"@
}

/// The address of the game server's socket:
/// `wss://<host>:<port>/socket.io/?token=<token>&EIO=4&transport=websocket`.
pub fn get_endpoint(host: &str, token: &str, debug: bool) -> (r: String)
    ensures
        r@ == endpoint(host@, token@, debug),
{
    let mut r = "wss://".to_owned();
    r.append(host);
    r.append(":");
    r.append(
        if debug {
            "3000"
        } else {
            "8443"
        },
    );
    r.append("/socket.io/?token=");
    r.append(token);
    r.append("&EIO=4&transport=websocket");
    r
}

/// What a finished login puts into the channel: success where nothing more is
/// asked of the user, the second factor where anything is, the fault where
/// there is one.
pub fn login_finished(host: String, result: Result<LoginResponse, LoginErrors>) -> (event:
    ChannelEvents)
    ensures
        match result {
            Ok(response) => if response.action_required matches BoolOrString::Bool(false) {
                event == ChannelEvents::LoginSuccess((host, response.token))
            } else {
                event == ChannelEvents::TotpRequired((host, response.token))
            },
            Err(error) => event == ChannelEvents::LoginError(error),
        },
{
    match result {
        Ok(response) => match response.action_required {
            BoolOrString::Bool(false) => ChannelEvents::LoginSuccess((host, response.token)),
            _ => ChannelEvents::TotpRequired((host, response.token)),
        },
        Err(error) => ChannelEvents::LoginError(error),
    }
}

/// What is said where the service's answer to a change of nickname makes no
/// sense.
pub open spec fn nonsense() -> Seq<char> {
    "someone changed backend code ig"@
}

/// What a finished change of nickname puts into the channel: success where
/// the service says so and sends a token; the service's complaint where it
/// reports failure and sends one; a complaint of the client's own otherwise.
pub fn nickname_finished(host: String, result: Result<NicknameResponse, LoginErrors>) -> (event:
    ChannelEvents)
    ensures
        match result {
            Ok(response) => match (response.success, response.token, response.error) {
                (true, Some(token), _) => event == ChannelEvents::LoginSuccess((host, token)),
                (false, _, Some(error)) => event == ChannelEvents::NicknameError(
                    LoginErrors::Unknown(error),
                ),
                _ => event matches ChannelEvents::NicknameError(LoginErrors::Unknown(why)) && why@
                    == nonsense(),
            },
            Err(error) => event == ChannelEvents::NicknameError(error),
        },
{
    match result {
        Ok(response) => match (response.success, response.token, response.error) {
            (true, Some(token), _) => ChannelEvents::LoginSuccess((host, token)),
            (false, _, Some(error)) => ChannelEvents::NicknameError(LoginErrors::Unknown(error)),
            _ => ChannelEvents::NicknameError(
                LoginErrors::Unknown("someone changed backend code ig".to_owned()),
            ),
        },
        Err(error) => ChannelEvents::NicknameError(error),
    }
}

/// What a finished second-factor login puts into the channel.
pub fn totp_finished(result: Result<LoginResponse, TotpErrors>) -> (event: ChannelEvents)
    ensures
        match result {
            Ok(response) => event == ChannelEvents::TotpSuccess(response.token),
            Err(error) => event == ChannelEvents::TotpError(error),
        },
{
    match result {
        Ok(response) => ChannelEvents::TotpSuccess(response.token),
        Err(error) => ChannelEvents::TotpError(error),
    }
}

/// What a finished request for a remote login puts into the channel.
pub fn redirect_finished(result: Result<RedirectResponse, LoginErrors>) -> (event: ChannelEvents)
    ensures
        match result {
            Ok(response) => event == ChannelEvents::RemoteRedirect(response.url),
            Err(error) => event == ChannelEvents::RemoteRedirectError(error),
        },
{
    match result {
        Ok(response) => ChannelEvents::RemoteRedirect(response.url),
        Err(error) => ChannelEvents::RemoteRedirectError(error),
    }
}

/// What the attempt to make a room for two puts into the channel.
pub fn room_created(result: Result<(SocketIoClient, String), EventError>) -> (event: ChannelEvents)
    ensures
        match result {
            Ok(pair) => event == ChannelEvents::RoomCreated(pair),
            Err(error) => event == ChannelEvents::RoomJoinError(error),
        },
{
    match result {
        Ok(pair) => ChannelEvents::RoomCreated(pair),
        Err(error) => ChannelEvents::RoomJoinError(error),
    }
}

/// What the attempt to join a room, or to make a room for one, puts into the
/// channel.
pub fn room_joined(result: Result<SocketIoClient, EventError>) -> (event: ChannelEvents)
    ensures
        match result {
            Ok(client) => event == ChannelEvents::RoomJoined(client),
            Err(error) => event == ChannelEvents::RoomJoinError(error),
        },
{
    match result {
        Ok(client) => ChannelEvents::RoomJoined(client),
        Err(error) => ChannelEvents::RoomJoinError(error),
    }
}

/// What a background task that wanted a room reports when no transport could
/// be set up: a connection error, whatever went wrong.
pub fn connection_failed(error: WebSocketErrors) -> (e: EventError)
    ensures
        e@ == EventFault::ConnectionError,
{
    EventError::ConnectionError
}

impl App {
    /// The session as the program starts: nobody logged in, the host page on
    /// the screen, the slot empty.
    pub fn new(kitty_protocol_support: bool, debug: bool) -> (app: Self)
        ensures
            app.host is None,
            app.auth_token is None,
            app.current_page matches Pages::HostSelector(page) && page.is_initial(debug),
            app.socket is NoSocket,
            app.kitty_protocol_support == kitty_protocol_support,
            app.debug == debug,
    {
        Self {
            host: None,
            auth_token: None,
            current_page: Pages::HostSelector(HostSelectorPage::new(debug)),
            socket: SocketSlot::NoSocket,
            kitty_protocol_support,
            debug,
        }
    }

    /// What becomes of the slot when a game is called off: a transport is
    /// half-closed and let go, a listener is let go.
    pub open spec fn release(socket: SocketSlot) -> Command {
        match socket {
            SocketSlot::NoSocket => Command::Idle,
            SocketSlot::GameTransport(_) => Command::CloseSocket,
            SocketSlot::PendingOAuthListener => Command::DropSocket,
        }
    }

    /// Whether `after` is `before` with the game called off: the slot empty,
    /// the mode page on the screen, nothing else changed.
    pub open spec fn aborted(before: App, after: App) -> bool {
        &&& after.host == before.host
        &&& after.auth_token == before.auth_token
        &&& after.kitty_protocol_support == before.kitty_protocol_support
        &&& after.debug == before.debug
        &&& after.socket is NoSocket
        &&& after.current_page == Pages::GameModeSelector(GameModePage::initial())
    }

    /// Calls the game off: lets go of what the slot holds and goes back to
    /// the mode page.
    pub fn abort_game(&mut self) -> (command: Command)
        ensures
            Self::aborted(*old(self), *final(self)),
            command == Self::release(old(self).socket),
    {
        let command = match &mut self.socket {
            SocketSlot::NoSocket => Command::Idle,
            SocketSlot::GameTransport(client) => {
                let _ = client.close();
                Command::CloseSocket
            },
            SocketSlot::PendingOAuthListener => Command::DropSocket,
        };
        self.socket = SocketSlot::NoSocket;
        self.current_page = Pages::GameModeSelector(GameModePage::new());
        command
    }

    /// Whether an event from the socket has any effect on the given page.
    /// The start of a game and its calling off are taken on every page, and
    /// so is a fault; the state of a game, its pause and its end are taken on
    /// the game page only; nothing else is taken anywhere.
    pub open spec fn takes_socket_event(page: Pages, event: Result<WebSocketEvents, EventError>)
        -> bool {
        match event {
            Ok(WebSocketEvents::GameStart(_)) => true,
            Ok(WebSocketEvents::GameAborted(_)) => true,
            Ok(WebSocketEvents::GameState(_)) => page is Game,
            Ok(WebSocketEvents::GameOver(_)) => page is Game,
            Ok(WebSocketEvents::GamePauseState(_)) => page is Game,
            Ok(_) => false,
            Err(_) => true,
        }
    }

    /// Whether `after` and `command` are what an event from the socket makes
    /// of `before`.
    ///
    /// A game that starts puts the game page on the screen. On the game page,
    /// the game's state and its pause are taken over, and its end puts the
    /// result on the screen. A game that is called off empties the slot and
    /// leads back to the mode page. A fault empties the slot and leaves the
    /// page alone. Everything else changes nothing.
    pub open spec fn after_socket_event(
        before: App,
        event: Result<WebSocketEvents, EventError>,
        after: App,
        command: Command,
    ) -> bool {
        &&& after.host == before.host
        &&& after.auth_token == before.auth_token
        &&& after.kitty_protocol_support == before.kitty_protocol_support
        &&& after.debug == before.debug
        &&& !Self::takes_socket_event(before.current_page, event) ==> after == before && command
            is Idle
        &&& match event {
            Ok(WebSocketEvents::GameStart(start)) => {
                &&& command is Idle
                &&& after.socket == before.socket
                &&& after.current_page matches Pages::Game(game)
                &&& Game::started(start, game)
            },
            Ok(WebSocketEvents::GameState(state)) => {
                &&& command is Idle
                &&& after.socket == before.socket
                &&& before.current_page matches Pages::Game(old_game) ==> (
                after.current_page matches Pages::Game(game) && Game::updated(
                    old_game,
                    state,
                    game,
                ))
            },
            Ok(WebSocketEvents::GameOver(over)) => {
                &&& command is Idle
                &&& after.socket == before.socket
                &&& before.current_page matches Pages::Game(game) ==> (
                after.current_page matches Pages::GameOver(page) && page.needs_update
                    && Game::concluded(game, over, page.game_result))
            },
            Ok(WebSocketEvents::GameAborted(_)) => Self::aborted(before, after) && command
                == Self::release(before.socket),
            Ok(WebSocketEvents::GamePauseState(paused)) => {
                &&& command is Idle
                &&& after.socket == before.socket
                &&& before.current_page matches Pages::Game(game) ==> after.current_page
                    == Pages::Game(Game { paused, needs_update: true, ..game })
            },
            Ok(_) => true,
            Err(_) => {
                &&& command is DropSocket
                &&& after.socket is NoSocket
                &&& after.current_page == before.current_page
            },
        }
    }

    /// Handles what the socket has delivered, once it has been read as an
    /// event; see [`App::after_socket_event`].
    pub fn socket_event(&mut self, event: Result<WebSocketEvents, EventError>) -> (command:
        Command)
        ensures
            Self::after_socket_event(*old(self), event, *final(self), command),
    {
        match event {
            Ok(WebSocketEvents::GameStart(start)) => {
                self.current_page = Pages::Game(Game::new(start));
                Command::Idle
            },
            Ok(WebSocketEvents::GameState(state)) => {
                match &mut self.current_page {
                    Pages::Game(game) => game.update(&state),
                    _ => {},
                }
                Command::Idle
            },
            Ok(WebSocketEvents::GameOver(over)) => {
                let result = match &self.current_page {
                    Pages::Game(game) => Some(game.game_over(&over)),
                    _ => None,
                };
                match result {
                    Some(result) => {
                        self.current_page = Pages::GameOver(GameOverPage::new(result));
                    },
                    None => {},
                }
                Command::Idle
            },
            Ok(WebSocketEvents::GameAborted(_)) => self.abort_game(),
            Ok(WebSocketEvents::GamePauseState(paused)) => {
                match &mut self.current_page {
                    Pages::Game(game) => game.set_paused(paused),
                    _ => {},
                }
                Command::Idle
            },
            Ok(_) => Command::Idle,
            Err(_) => {
                self.socket = SocketSlot::NoSocket;
                Command::DropSocket
            },
        }
    }

    /// Whether `after` and `command` are what follows from what the transport
    /// has made of a delivery: its answer to the keep-alive probe is to be
    /// sent and nothing changes; any other outcome is handled as
    /// [`App::after_socket_event`] says.
    pub open spec fn after_delivery(
        before: App,
        received: Received,
        after: App,
        command: Command,
    ) -> bool {
        match received.reply {
            Some(pong) => after == before && command == Command::Pong(pong),
            None => Self::after_socket_event(before, received.event, after, command),
        }
    }

    /// Handles a delivery from the game's socket: the transport in the slot
    /// reads it, and what it makes of it is handled as
    /// [`App::after_delivery`] says. With no transport in the slot the call
    /// does nothing.
    pub fn receive(&mut self, incoming: &Incoming) -> (command: Command)
        ensures
            !(old(self).socket is GameTransport) ==> *final(self) == *old(self) && command is Idle,
            old(self).socket matches SocketSlot::GameTransport(client) ==> exists|
                received: Received,
            | #[trigger]
                SocketIoClient::delivers(client.phase(), incoming@, received)
                    && Self::after_delivery(*old(self), received, *final(self), command),
    {
        let received = match &self.socket {
            SocketSlot::GameTransport(client) => client.wait_for_events(incoming),
            _ => {
                return Command::Idle;
            },
        };
        match received.reply {
            Some(pong) => Command::Pong(pong),
            None => self.socket_event(received.event),
        }
    }

    /// Takes note that the keep-alive answer could not be sent: the slot is
    /// emptied, the page stays.
    pub fn pong_failed(&mut self) -> (command: Command)
        ensures
            command is DropSocket,
            final(self).socket is NoSocket,
            final(self).current_page == old(self).current_page,
            final(self).host == old(self).host,
            final(self).auth_token == old(self).auth_token,
    {
        self.socket_event(SocketIoClient::pong_sent(false))
    }

    /// Takes note that the local listener has served its one request or has
    /// failed: the slot is emptied, the page stays.
    pub fn listener_done(&mut self) -> (command: Command)
        ensures
            command is DropSocket,
            final(self).socket is NoSocket,
            final(self).current_page == old(self).current_page,
            final(self).host == old(self).host,
            final(self).auth_token == old(self).auth_token,
    {
        self.socket_event(Err(EventError::ConnectionError))
    }

    /// Takes note that a frame could not be sent on the game's socket: the
    /// game is called off.
    pub fn send_failed(&mut self) -> (command: Command)
        ensures
            Self::aborted(*old(self), *final(self)),
            command == Self::release(old(self).socket),
    {
        self.abort_game()
    }

    /// The frame that carries the two paddles' directions, or the calling
    /// off of the game where the transport cannot send.
    fn send_paddles(&mut self, directions: (PaddleMoveDirection, PaddleMoveDirection)) -> (command:
        Command)
        requires
            old(self).socket is GameTransport,
        ensures
            Self::after_send(*old(self), *final(self), command),
            command matches Command::Send(frame) ==> frame@ == request_frame(
                "paddle_move"@,
                (EventTypes::PaddleMove { move_p1: directions.0, move_p2: directions.1 }),
            ),
    {
        let frame = match &self.socket {
            SocketSlot::GameTransport(client) => client.paddle_move(directions),
            _ => Err(EventError::ConnectionError),
        };
        match frame {
            Ok(frame) => Command::Send(frame),
            Err(_) => self.abort_game(),
        }
    }

    /// Whether a command starts the task that makes a room of the given mode
    /// at the given address, with the given token.
    pub open spec fn asks_for_room(
        command: Command,
        mode: GameModes,
        address: Seq<char>,
        token: String,
    ) -> bool {
        match command {
            Command::Spawn(Task::SinglePlayer { endpoint, token: bearer }) => mode is SinglePlayer
                && endpoint@ == address && bearer == token,
            Command::Spawn(Task::CreateRoom { endpoint, token: bearer }) => mode is CreateRoom
                && endpoint@ == address && bearer == token,
            _ => false,
        }
    }

    /// Whether `after` and `command` are what a page's request makes of
    /// `before`.
    ///
    /// A host with a local login leads to the login page; with a remote login
    /// it asks the driver for the local listener. A login, a second factor, a
    /// nickname, a room to join and a mode to play start the background task
    /// that does the work, where host and token are known as far as the task
    /// needs them, and do nothing where they are not; the mode "join" leads
    /// to the page for the room's id. Leaving a game calls it off. Paddle
    /// directions and a pause go to the server where a transport is held, and
    /// a transport that cannot send calls the game off. Leaving the program
    /// ends the loop.
    pub open spec fn after_page_result(
        before: App,
        result: Option<PageResults>,
        after: App,
        command: Command,
    ) -> bool {
        &&& after.kitty_protocol_support == before.kitty_protocol_support
        &&& after.debug == before.debug
        &&& match result {
            None => after == before && command is Idle,
            Some(PageResults::Exit) => after == before && command is Exit,
            Some(PageResults::HostSelected((host, LoginType::LocalLogin))) => {
                &&& command is Idle
                &&& after.host == Some(host)
                &&& after.auth_token == before.auth_token
                &&& after.socket == before.socket
                &&& after.current_page matches Pages::Login(page) && page.is_initial()
            },
            Some(PageResults::HostSelected((host, LoginType::RemoteLogin))) => {
                &&& command == Command::BindListener(host)
                &&& after.host == Some(host)
                &&& after.auth_token == before.auth_token
                &&& after.socket == before.socket
                &&& after.current_page == before.current_page
            },
            Some(PageResults::NicknameSelected(nickname)) => {
                &&& after == before
                &&& match (before.host, before.auth_token) {
                    (Some(host), Some(token)) => command == Command::Spawn(
                        Task::SetNickname { host, token, nickname },
                    ),
                    _ => command is Idle,
                }
            },
            Some(PageResults::Login((email, password))) => {
                &&& after == before
                &&& match before.host {
                    Some(host) => command == Command::Spawn(
                        Task::Login { host, email, password },
                    ),
                    None => command is Idle,
                }
            },
            Some(PageResults::Totp(totp_code)) => {
                &&& after == before
                &&& match (before.host, before.auth_token) {
                    (Some(host), Some(auth_token)) => command == Command::Spawn(
                        Task::Login2fa { host, auth_token, totp_code },
                    ),
                    _ => command is Idle,
                }
            },
            Some(PageResults::GameModeChosen(GameModes::JoinRoom)) => {
                &&& command is Idle
                &&& after.host == before.host
                &&& after.auth_token == before.auth_token
                &&& after.socket == before.socket
                &&& after.current_page matches Pages::JoinRoom(page) && page.is_initial()
            },
            Some(PageResults::GameModeChosen(mode)) => {
                &&& after == before
                &&& match (before.host, before.auth_token) {
                    (Some(host), Some(token)) => Self::asks_for_room(
                        command,
                        mode,
                        endpoint(host@, token@, before.debug),
                        token,
                    ),
                    _ => command is Idle,
                }
            },
            Some(PageResults::JoinRoom(room_id)) => {
                &&& after == before
                &&& match (before.host, before.auth_token) {
                    (Some(host), Some(token)) => command matches Command::Spawn(
                        Task::JoinRoom { endpoint: address, token: bearer, room_id: room },
                    ) && address@ == endpoint(host@, token@, before.debug) && bearer == token
                        && room == room_id,
                    _ => command is Idle,
                }
            },
            Some(PageResults::BackToMenu) | Some(PageResults::GameOver) => Self::aborted(
                before,
                after,
            ) && command == Self::release(before.socket),
            Some(PageResults::UpdatePaddleMovement(directions)) => {
                &&& Self::after_send(before, after, command)
                &&& command matches Command::Send(frame) ==> frame@ == request_frame(
                    "paddle_move"@,
                    EventTypes::PaddleMove { move_p1: directions.0, move_p2: directions.1 },
                )
            },
            Some(PageResults::GamePaused(is_paused)) => {
                &&& Self::after_send(before, after, command)
                &&& command matches Command::Send(frame) ==> frame@ == request_frame(
                    "game_pause"@,
                    EventTypes::GamePause(is_paused),
                )
            },
        }
    }

    /// Handles what a page asked for when it handled a key; see
    /// [`App::after_page_result`].
    pub fn page_result(&mut self, result: Option<PageResults>) -> (command: Command)
        ensures
            Self::after_page_result(*old(self), result, *final(self), command),
    {
        match result {
            None => Command::Idle,
            Some(PageResults::Exit) => Command::Exit,
            Some(PageResults::HostSelected((host, login_type))) => {
                self.host = Some(host.clone());
                match login_type {
                    LoginType::LocalLogin => {
                        self.current_page = Pages::Login(LoginPage::new());
                        Command::Idle
                    },
                    LoginType::RemoteLogin => Command::BindListener(host),
                }
            },
            Some(PageResults::NicknameSelected(nickname)) => {
                match (&self.host, &self.auth_token) {
                    (Some(host), Some(token)) => Command::Spawn(
                        Task::SetNickname { host: host.clone(), token: token.clone(), nickname },
                    ),
                    _ => Command::Idle,
                }
            },
            Some(PageResults::Login((email, password))) => {
                match &self.host {
                    Some(host) => Command::Spawn(
                        Task::Login { host: host.clone(), email, password },
                    ),
                    None => Command::Idle,
                }
            },
            Some(PageResults::Totp(totp_code)) => {
                match (&self.host, &self.auth_token) {
                    (Some(host), Some(auth_token)) => Command::Spawn(
                        Task::Login2fa {
                            host: host.clone(),
                            auth_token: auth_token.clone(),
                            totp_code,
                        },
                    ),
                    _ => Command::Idle,
                }
            },
            Some(PageResults::GameModeChosen(mode)) => {
                match mode {
                    GameModes::JoinRoom => {
                        self.current_page = Pages::JoinRoom(JoinRoomPage::new());
                        Command::Idle
                    },
                    _ => match (&self.host, &self.auth_token) {
                        (Some(host), Some(token)) => {
                            let endpoint = get_endpoint(host.as_str(), token.as_str(), self.debug);
                            match mode {
                                GameModes::SinglePlayer => Command::Spawn(
                                    Task::SinglePlayer { endpoint, token: token.clone() },
                                ),
                                _ => Command::Spawn(
                                    Task::CreateRoom { endpoint, token: token.clone() },
                                ),
                            }
                        },
                        _ => Command::Idle,
                    },
                }
            },
            Some(PageResults::BackToMenu) | Some(PageResults::GameOver) => self.abort_game(),
            Some(PageResults::JoinRoom(room_id)) => {
                match (&self.host, &self.auth_token) {
                    (Some(host), Some(token)) => Command::Spawn(
                        Task::JoinRoom {
                            endpoint: get_endpoint(host.as_str(), token.as_str(), self.debug),
                            token: token.clone(),
                            room_id,
                        },
                    ),
                    _ => Command::Idle,
                }
            },
            Some(PageResults::UpdatePaddleMovement(directions)) => {
                match &self.socket {
                    SocketSlot::GameTransport(_) => self.send_paddles(directions),
                    _ => Command::Idle,
                }
            },
            Some(PageResults::GamePaused(is_paused)) => {
                let frame = match &self.socket {
                    SocketSlot::GameTransport(client) => client.pause_game(is_paused),
                    _ => {
                        return Command::Idle;
                    },
                };
                match frame {
                    Ok(frame) => Command::Send(frame),
                    Err(_) => self.abort_game(),
                }
            },
        }
    }

    /// Handles a key that happened at the moment `at`: the page on the screen
    /// handles it, and what the page asks for is handled as
    /// [`App::page_result`] says.
    pub fn key_at(&mut self, key: &KeyEvent, at: Instant) -> (command: Command)
        ensures
            exists|page: Pages, result: Option<PageResults>| #[trigger]
                Pages::answers(old(self).current_page, *key, at, page, result)
                    && Self::after_page_result(
                    (App { current_page: page, ..*old(self) }),
                    result,
                    *final(self),
                    command,
                ),
    {
        let result = self.current_page.key_event_at(key, at);
        self.page_result(result)
    }

    /// Handles a key that happens now; see [`App::key_at`]. The clock
    /// decides which moment `at` holds.
    pub fn key(&mut self, key: &KeyEvent) -> (command: Command)
        ensures
            exists|at: Instant, page: Pages, result: Option<PageResults>| #[trigger]
                Pages::answers(old(self).current_page, *key, at, page, result)
                    && Self::after_page_result(
                    (App { current_page: page, ..*old(self) }),
                    result,
                    *final(self),
                    command,
                ),
    {
        let result = self.current_page.key_event(key);
        self.page_result(result)
    }

    /// Whether a command puts a login error with the given reason into the
    /// channel.
    pub open spec fn notifies(command: Command, reason: Seq<char>) -> bool {
        command matches Command::Notify(ChannelEvents::LoginError(LoginErrors::Unknown(why)))
            && why@ == reason
    }

    /// Takes note of how the attempt to bind the local listener ended. A
    /// bound listener takes the slot, and the request for the remote login is
    /// started; a failure is put into the channel as a login error.
    pub fn listener_bound(&mut self, host: String, binding: Binding) -> (command: Command)
        ensures
            final(self).host == old(self).host,
            final(self).auth_token == old(self).auth_token,
            final(self).current_page == old(self).current_page,
            final(self).kitty_protocol_support == old(self).kitty_protocol_support,
            final(self).debug == old(self).debug,
            match binding {
                Binding::Bound(port) => final(self).socket is PendingOAuthListener && command
                    == Command::Spawn((Task::RemoteLogin { host, port })),
                Binding::BindFailed => final(self).socket == old(self).socket
                    && Self::notifies(command, "Unable to bind webserver"@),
                Binding::NoPort => final(self).socket == old(self).socket
                    && Self::notifies(command, "Unable to fetch Port from local webserver"@),
            },
    {
        match binding {
            Binding::Bound(port) => {
                self.socket = SocketSlot::PendingOAuthListener;
                Command::Spawn(Task::RemoteLogin { host, port })
            },
            Binding::BindFailed => Command::Notify(
                ChannelEvents::LoginError(
                    LoginErrors::Unknown("Unable to bind webserver".to_owned()),
                ),
            ),
            Binding::NoPort => Command::Notify(
                ChannelEvents::LoginError(
                    LoginErrors::Unknown("Unable to fetch Port from local webserver".to_owned()),
                ),
            ),
        }
    }

    /// Takes note that the browser could not be opened: on the host page the
    /// failure is shown and the slot is emptied; on any other page nothing
    /// happens.
    pub fn browser_failed(&mut self) -> (command: Command)
        ensures
            final(self).host == old(self).host,
            final(self).auth_token == old(self).auth_token,
            final(self).kitty_protocol_support == old(self).kitty_protocol_support,
            final(self).debug == old(self).debug,
            !(old(self).current_page is HostSelector) ==> *final(self) == *old(self) && command
                is Idle,
            old(self).current_page matches Pages::HostSelector(before) ==> {
                &&& command is DropSocket
                &&& final(self).socket is NoSocket
                &&& final(self).current_page matches Pages::HostSelector(page)
                &&& HostSelectorPage::shows_error(
                    before,
                    "Error: Unable to open webbrowser"@,
                    page,
                )
            },
    {
        match &mut self.current_page {
            Pages::HostSelector(page) => {
                let error = LoginErrors::Unknown("Unable to open webbrowser".to_owned());
                page.host_error(&error);
                proof {
                    reveal_strlit("Error: Unable to open webbrowser");
                    reveal_strlit("Error: ");
                    reveal_strlit("Unable to open webbrowser");
                    assert(error.text() =~= "Error: Unable to open webbrowser"@);
                }
                self.socket = SocketSlot::NoSocket;
                Command::DropSocket
            },
            _ => Command::Idle,
        }
    }

    /// Whether a background result has any effect on the given page. A
    /// joined room is taken on every page. Every other result is taken only
    /// on the page of the flow that it belongs to, and is stale everywhere
    /// else: a finished login on the login page and, where it ends the
    /// choice of a nickname, on the nickname page; the demand for the second
    /// factor on the login page; an accepted code on the page of the code.
    pub open spec fn takes_channel_event(page: Pages, event: ChannelEvents) -> bool {
        match event {
            ChannelEvents::LoginSuccess(_) => page is Login || page is NicknameSelector,
            ChannelEvents::TotpRequired(_) => page is Login,
            ChannelEvents::TotpSuccess(_) => page is TotpPage,
            ChannelEvents::RoomJoined(_) => true,
            ChannelEvents::TotpError(_) => page is TotpPage,
            ChannelEvents::LoginError(_) => page is Login,
            ChannelEvents::NicknameError(_) => page is NicknameSelector,
            ChannelEvents::RemoteRedirect(_) => page is HostSelector,
            ChannelEvents::RemoteRedirectCallback(_) => page is HostSelector,
            ChannelEvents::RemoteRedirectError(_) => page is HostSelector,
            ChannelEvents::RoomCreated(_) => page is GameModeSelector,
            ChannelEvents::RoomJoinError(_) => page is JoinRoom,
        }
    }

    /// Whether `after` and `command` are what a background result that is
    /// taken makes of `before`.
    ///
    /// A finished login stores host and token and leads to the mode page, or
    /// to the page of the code where the second factor is asked for; an
    /// accepted code stores the new token and leads to the mode page. A
    /// failure is shown on the page of its flow, which keeps what its own
    /// rules say it keeps. The address of a remote login is to be opened in
    /// the browser; the browser's return stores the token, empties the slot
    /// and leads to the nickname page or to the mode page; a failed remote
    /// login empties the slot. A created room is attached and leads to the
    /// lobby; a joined room is attached and leaves the page alone.
    pub open spec fn after_channel_event(
        before: App,
        event: ChannelEvents,
        after: App,
        command: Command,
    ) -> bool {
        match event {
            ChannelEvents::LoginSuccess((host, token)) => {
                &&& command is Idle
                &&& after.host == Some(host)
                &&& after.auth_token == Some(token)
                &&& after.socket == before.socket
                &&& after.current_page == Pages::GameModeSelector(GameModePage::initial())
            },
            ChannelEvents::TotpRequired((host, token)) => {
                &&& command is Idle
                &&& after.host == Some(host)
                &&& after.auth_token == Some(token)
                &&& after.socket == before.socket
                &&& after.current_page matches Pages::TotpPage(page) && page.is_initial()
            },
            ChannelEvents::TotpSuccess(token) => {
                &&& command is Idle
                &&& after.host == before.host
                &&& after.auth_token == Some(token)
                &&& after.socket == before.socket
                &&& after.current_page == Pages::GameModeSelector(GameModePage::initial())
            },
            ChannelEvents::TotpError(error) => {
                &&& command is Idle
                &&& after.host == before.host
                &&& after.auth_token == before.auth_token
                &&& after.socket == before.socket
                &&& after.current_page matches Pages::TotpPage(page)
                &&& page.shows_error(error.text())
            },
            ChannelEvents::LoginError(error) => {
                &&& command is Idle
                &&& after.host == before.host
                &&& after.auth_token == before.auth_token
                &&& after.socket == before.socket
                &&& before.current_page matches Pages::Login(page)
                &&& after.current_page matches Pages::Login(next)
                &&& LoginPage::shows_error(page, error.text(), next)
            },
            ChannelEvents::NicknameError(error) => {
                &&& command is Idle
                &&& after.host == before.host
                &&& after.auth_token == before.auth_token
                &&& after.socket == before.socket
                &&& before.current_page matches Pages::NicknameSelector(page)
                &&& after.current_page matches Pages::NicknameSelector(next)
                &&& NicknamePage::shows_error(page, error.text(), next)
            },
            ChannelEvents::RemoteRedirect(url) => after == before && command
                == Command::OpenBrowser(url),
            ChannelEvents::RemoteRedirectCallback((token, nickname_required)) => {
                &&& command is DropSocket
                &&& after.host == before.host
                &&& after.auth_token == Some(token)
                &&& after.socket is NoSocket
                &&& if nickname_required {
                    after.current_page matches Pages::NicknameSelector(page) && page.is_initial()
                } else {
                    after.current_page == Pages::GameModeSelector(GameModePage::initial())
                }
            },
            ChannelEvents::RemoteRedirectError(error) => {
                &&& command is DropSocket
                &&& after.host == before.host
                &&& after.auth_token == before.auth_token
                &&& after.socket is NoSocket
                &&& before.current_page matches Pages::HostSelector(page)
                &&& after.current_page matches Pages::HostSelector(next)
                &&& HostSelectorPage::shows_error(page, error.text(), next)
            },
            ChannelEvents::RoomCreated((client, room_id)) => {
                &&& command is Attach
                &&& after.host == before.host
                &&& after.auth_token == before.auth_token
                &&& after.socket == SocketSlot::GameTransport(client)
                &&& after.current_page == Pages::GameLobby(
                    GameLobbyPage { room_id, needs_update: true },
                )
            },
            ChannelEvents::RoomJoined(client) => {
                &&& command is Attach
                &&& after.host == before.host
                &&& after.auth_token == before.auth_token
                &&& after.socket == SocketSlot::GameTransport(client)
                &&& after.current_page == before.current_page
            },
            ChannelEvents::RoomJoinError(error) => {
                &&& command is Idle
                &&& after.host == before.host
                &&& after.auth_token == before.auth_token
                &&& after.socket == before.socket
                &&& after.current_page matches Pages::JoinRoom(page)
                &&& page.shows_error(error.text())
            },
        }
    }

    /// Whether `after` and `command` are what a background result makes of
    /// `before`. A result that the page on the screen does not take is stale
    /// and is dropped: nothing changes and nothing is done. A result that is
    /// taken has the effect that [`App::after_channel_event`] describes.
    pub open spec fn after_channel(
        before: App,
        event: ChannelEvents,
        after: App,
        command: Command,
    ) -> bool {
        &&& after.kitty_protocol_support == before.kitty_protocol_support
        &&& after.debug == before.debug
        &&& if Self::takes_channel_event(before.current_page, event) {
            Self::after_channel_event(before, event, after, command)
        } else {
            after == before && command is Idle
        }
    }

    /// Handles what a background task has reported; see
    /// [`App::after_channel`].
    pub fn channel_event(&mut self, event: ChannelEvents) -> (command: Command)
        ensures
            Self::after_channel(*old(self), event, *final(self), command),
    {
        match event {
            ChannelEvents::LoginSuccess((host, token)) => {
                match &self.current_page {
                    Pages::Login(_) | Pages::NicknameSelector(_) => {
                        self.auth_token = Some(token);
                        self.host = Some(host);
                        self.current_page = Pages::GameModeSelector(GameModePage::new());
                    },
                    _ => {},
                }
                Command::Idle
            },
            ChannelEvents::TotpRequired((host, token)) => {
                match &self.current_page {
                    Pages::Login(_) => {
                        self.auth_token = Some(token);
                        self.host = Some(host);
                        self.current_page = Pages::TotpPage(TotpPage::new());
                    },
                    _ => {},
                }
                Command::Idle
            },
            ChannelEvents::TotpSuccess(token) => {
                match &self.current_page {
                    Pages::TotpPage(_) => {
                        self.auth_token = Some(token);
                        self.current_page = Pages::GameModeSelector(GameModePage::new());
                    },
                    _ => {},
                }
                Command::Idle
            },
            ChannelEvents::TotpError(error) => {
                match &mut self.current_page {
                    Pages::TotpPage(page) => page.totp_error(&error),
                    _ => {},
                }
                Command::Idle
            },
            ChannelEvents::LoginError(error) => {
                match &mut self.current_page {
                    Pages::Login(page) => page.login_error(&error),
                    _ => {},
                }
                Command::Idle
            },
            ChannelEvents::NicknameError(error) => {
                match &mut self.current_page {
                    Pages::NicknameSelector(page) => page.nickname_error(&error),
                    _ => {},
                }
                Command::Idle
            },
            ChannelEvents::RemoteRedirect(url) => {
                match &self.current_page {
                    Pages::HostSelector(_) => Command::OpenBrowser(url),
                    _ => Command::Idle,
                }
            },
            ChannelEvents::RemoteRedirectCallback((token, nickname_required)) => {
                match &self.current_page {
                    Pages::HostSelector(_) => {
                        self.auth_token = Some(token);
                        self.socket = SocketSlot::NoSocket;
                        if nickname_required {
                            self.current_page = Pages::NicknameSelector(NicknamePage::new());
                        } else {
                            self.current_page = Pages::GameModeSelector(GameModePage::new());
                        }
                        Command::DropSocket
                    },
                    _ => Command::Idle,
                }
            },
            ChannelEvents::RemoteRedirectError(error) => {
                match &mut self.current_page {
                    Pages::HostSelector(page) => {
                        page.host_error(&error);
                        self.socket = SocketSlot::NoSocket;
                        Command::DropSocket
                    },
                    _ => Command::Idle,
                }
            },
            ChannelEvents::RoomCreated((client, room_id)) => {
                match &self.current_page {
                    Pages::GameModeSelector(_) => {
                        self.socket = SocketSlot::GameTransport(client);
                        self.current_page = Pages::GameLobby(GameLobbyPage::new(room_id));
                        Command::Attach
                    },
                    _ => Command::Idle,
                }
            },
            ChannelEvents::RoomJoined(client) => {
                self.socket = SocketSlot::GameTransport(client);
                Command::Attach
            },
            ChannelEvents::RoomJoinError(error) => {
                match &mut self.current_page {
                    Pages::JoinRoom(page) => page.join_error(&error),
                    _ => {},
                }
                Command::Idle
            },
        }
    }

    /// Whether `after` and `command` are what the attempt to send a frame on
    /// the transport of `before` leads to: the frame goes out where the
    /// transport is ready, and the game is called off where it is not.
    pub open spec fn after_send(before: App, after: App, command: Command) -> bool {
        match before.socket {
            SocketSlot::GameTransport(client) => if client.phase() == Phase::Ready {
                after == before && command is Send
            } else {
                Self::aborted(before, after) && command is CloseSocket
            },
            _ => after == before && command is Idle,
        }
    }

    /// Whether a tick looks at the paddles: the terminal does not report key
    /// releases, a game is on the screen and a transport is held.
    pub open spec fn flushes(&self) -> bool {
        !self.kitty_protocol_support && self.current_page is Game && self.socket is GameTransport
    }

    /// Whether `after` and `command` are what a tick makes of `before`, so
    /// long after the latest presses on the two paddles.
    ///
    /// Where the tick looks at the paddles, movements that no press has
    /// confirmed in time are given up, and where one was given up the
    /// directions go to the server; a transport that cannot send calls the
    /// game off. Anywhere else the tick changes nothing.
    pub open spec fn after_tick(
        before: App,
        elapsed_a: u128,
        elapsed_b: u128,
        after: App,
        command: Command,
    ) -> bool {
        &&& after.kitty_protocol_support == before.kitty_protocol_support
        &&& after.debug == before.debug
        &&& after.host == before.host
        &&& after.auth_token == before.auth_token
        &&& !before.flushes() ==> after == before && command is Idle
        &&& before.flushes() ==> (before.current_page matches Pages::Game(game) && (
        match Game::flushed(game.movement_a@, game.movement_b@, elapsed_a, elapsed_b) {
            None => {
                &&& command is Idle
                &&& after.socket == before.socket
                &&& after.current_page matches Pages::Game(next)
                &&& Game::ticked(game, elapsed_a, elapsed_b, next)
            },
            Some(directions) => if before.socket->GameTransport_0.phase() == Phase::Ready {
                &&& after.socket == before.socket
                &&& after.current_page matches Pages::Game(next)
                &&& Game::ticked(game, elapsed_a, elapsed_b, next)
                &&& command matches Command::Send(frame)
                &&& frame@ == request_frame(
                    "paddle_move"@,
                    EventTypes::PaddleMove { move_p1: directions.0, move_p2: directions.1 },
                )
            } else {
                &&& command is CloseSocket
                &&& after.socket is NoSocket
                &&& after.current_page == Pages::GameModeSelector(GameModePage::initial())
            },
        }))
    }

    /// One tick, so long after the latest presses on the two paddles; see
    /// [`App::after_tick`].
    pub fn tick_after(&mut self, elapsed_a: u128, elapsed_b: u128) -> (command: Command)
        ensures
            Self::after_tick(*old(self), elapsed_a, elapsed_b, *final(self), command),
    {
        if self.kitty_protocol_support {
            return Command::Idle;
        }
        match &self.socket {
            SocketSlot::GameTransport(_) => {},
            _ => {
                return Command::Idle;
            },
        }
        let directions = match &mut self.current_page {
            Pages::Game(game) => game.tick_after(elapsed_a, elapsed_b),
            _ => {
                return Command::Idle;
            },
        };
        match directions {
            Some(directions) => self.send_paddles(directions),
            None => Command::Idle,
        }
    }

    /// One tick by the clock: [`App::after_tick`] holds of the times that the
    /// clock gives.
    pub fn tick(&mut self) -> (command: Command)
        ensures
            exists|elapsed_a: u128, elapsed_b: u128| #[trigger]
                Self::after_tick(*old(self), elapsed_a, elapsed_b, *final(self), command),
    {
        let ghost before = *self;
        if self.kitty_protocol_support {
            assert(Self::after_tick(before, 0, 0, *self, Command::Idle));
            return Command::Idle;
        }
        match &self.socket {
            SocketSlot::GameTransport(_) => {},
            _ => {
                assert(Self::after_tick(before, 0, 0, *self, Command::Idle));
                return Command::Idle;
            },
        }
        let directions = match &mut self.current_page {
            Pages::Game(game) => game.tick(),
            _ => {
                assert(Self::after_tick(before, 0, 0, *self, Command::Idle));
                return Command::Idle;
            },
        };
        let ghost (elapsed_a, elapsed_b) = choose|elapsed_a: u128, elapsed_b: u128| #[trigger]
            Game::ticked(
                before.current_page->Game_0,
                elapsed_a,
                elapsed_b,
                self.current_page->Game_0,
            ) && directions == Game::flushed(
                before.current_page->Game_0.movement_a@,
                before.current_page->Game_0.movement_b@,
                elapsed_a,
                elapsed_b,
            );
        let command = match directions {
            Some(directions) => self.send_paddles(directions),
            None => Command::Idle,
        };
        assert(Self::after_tick(before, elapsed_a, elapsed_b, *self, command));
        command
    }

    /// Whether the screen is to be drawn: always where the caller insists, as
    /// it does after a resize and after a tick, and otherwise where the page
    /// has something new to draw.
    pub fn render(&self, force_redraw: bool) -> (draw: bool)
        ensures
            draw == (force_redraw || self.current_page.stale()),
    {
        force_redraw || self.current_page.needs_update()
    }

    /// Takes note that the screen was drawn.
    pub fn drawn(&mut self)
        ensures
            *final(self) == (App { current_page: old(self).current_page.fresh(), ..*old(self) }),
    {
        self.current_page.drawn();
    }
}

/// The page that follows an event from the socket: a game that starts leads
/// to the game page from anywhere, a game that ends leads from the game page
/// to its result, a game that is called off leads to the mode page from
/// anywhere. Nothing else changes the page.
pub open spec fn page_after_socket_event(
    page: PageKind,
    event: Result<WebSocketEvents, EventError>,
) -> PageKind {
    match event {
        Ok(WebSocketEvents::GameStart(_)) => PageKind::Game,
        Ok(WebSocketEvents::GameOver(_)) => if page == PageKind::Game {
            PageKind::GameOver
        } else {
            page
        },
        Ok(WebSocketEvents::GameAborted(_)) => PageKind::GameModeSelector,
        _ => page,
    }
}

/// The page that follows a background result: a finished login leads from
/// the login page and from the nickname page to the mode page; the demand for
/// the second factor leads from the login page to the page of the code; an
/// accepted code leads from there to the mode page; the browser's return
/// leads from the host page to the nickname page or to the mode page; a
/// created room leads from the mode page to the lobby. Nothing else changes
/// the page.
pub open spec fn page_after_channel_event(page: PageKind, event: ChannelEvents) -> PageKind {
    match event {
        ChannelEvents::LoginSuccess(_) => if page == PageKind::Login || page
            == PageKind::NicknameSelector {
            PageKind::GameModeSelector
        } else {
            page
        },
        ChannelEvents::TotpSuccess(_) => if page == PageKind::TotpPage {
            PageKind::GameModeSelector
        } else {
            page
        },
        ChannelEvents::TotpRequired(_) => if page == PageKind::Login {
            PageKind::TotpPage
        } else {
            page
        },
        ChannelEvents::RemoteRedirectCallback((_, nickname_required)) => if page
            != PageKind::HostSelector {
            page
        } else if nickname_required {
            PageKind::NicknameSelector
        } else {
            PageKind::GameModeSelector
        },
        ChannelEvents::RoomCreated(_) => if page == PageKind::GameModeSelector {
            PageKind::GameLobby
        } else {
            page
        },
        _ => page,
    }
}

/// The page that follows what a page asked for: a host with a local login
/// leads to the login page, the mode "join" to the join page, leaving a game
/// to the mode page, and so does a frame for the server that a transport
/// which is held cannot send. Nothing else changes the page.
pub open spec fn page_after_result(before: App, result: Option<PageResults>) -> PageKind {
    match result {
        Some(PageResults::HostSelected((_, LoginType::LocalLogin))) => PageKind::Login,
        Some(PageResults::GameModeChosen(GameModes::JoinRoom)) => PageKind::JoinRoom,
        Some(PageResults::BackToMenu) => PageKind::GameModeSelector,
        Some(PageResults::GameOver) => PageKind::GameModeSelector,
        Some(PageResults::UpdatePaddleMovement(_)) | Some(PageResults::GamePaused(_)) =>
            match before.socket {
            SocketSlot::GameTransport(client) => if client.phase() == Phase::Ready {
                before.current_page.kind_of()
            } else {
                PageKind::GameModeSelector
            },
            _ => before.current_page.kind_of(),
        },
        _ => before.current_page.kind_of(),
    }
}

/// The page-transition table for events from the socket, and what they do to
/// the slot: it stays as it is or is emptied. An event that is not taken
/// changes nothing at all.
pub proof fn lemma_socket_transitions(
    before: App,
    event: Result<WebSocketEvents, EventError>,
    after: App,
    command: Command,
)
    requires
        App::after_socket_event(before, event, after, command),
    ensures
        after.current_page.kind_of() == page_after_socket_event(
            before.current_page.kind_of(),
            event,
        ),
        after.socket is NoSocket || after.socket == before.socket,
        !App::takes_socket_event(before.current_page, event) ==> after == before && command is Idle,
{
}

/// The page-transition table for background results. A result that is stale,
/// because the page of its flow is no longer on the screen, changes nothing
/// at all and asks for nothing.
pub proof fn lemma_channel_transitions(
    before: App,
    event: ChannelEvents,
    after: App,
    command: Command,
)
    requires
        App::after_channel(before, event, after, command),
    ensures
        after.current_page.kind_of() == page_after_channel_event(
            before.current_page.kind_of(),
            event,
        ),
        !App::takes_channel_event(before.current_page, event) ==> after == before && command is Idle,
{
}

/// A background result changes the page on the pairs of the table and on no
/// other: every change of page is one of the five that are listed here, each
/// from the page of the flow that the result belongs to.
pub proof fn lemma_channel_table(before: App, event: ChannelEvents, after: App, command: Command)
    requires
        App::after_channel(before, event, after, command),
        after.current_page.kind_of() != before.current_page.kind_of(),
    ensures
        match event {
            ChannelEvents::LoginSuccess(_) => (before.current_page is Login
                || before.current_page is NicknameSelector) && after.current_page
                is GameModeSelector,
            ChannelEvents::TotpRequired(_) => before.current_page is Login && after.current_page
                is TotpPage,
            ChannelEvents::TotpSuccess(_) => before.current_page is TotpPage && after.current_page
                is GameModeSelector,
            ChannelEvents::RemoteRedirectCallback(_) => before.current_page is HostSelector && (
            after.current_page is NicknameSelector || after.current_page is GameModeSelector),
            ChannelEvents::RoomCreated(_) => before.current_page is GameModeSelector
                && after.current_page is GameLobby,
            _ => false,
        },
{
}

/// A result of a login flow that arrives when the page of its flow is no
/// longer on the screen is dropped: host, token, page and slot stay as they
/// are, and nothing is asked of the driver.
pub proof fn lemma_late_login_is_dropped(
    before: App,
    event: ChannelEvents,
    after: App,
    command: Command,
)
    requires
        App::after_channel(before, event, after, command),
        match event {
            ChannelEvents::LoginSuccess(_) => !(before.current_page is Login)
                && !(before.current_page is NicknameSelector),
            ChannelEvents::TotpRequired(_) | ChannelEvents::LoginError(_) => !(before.current_page
                is Login),
            ChannelEvents::TotpSuccess(_) | ChannelEvents::TotpError(_) => !(before.current_page
                is TotpPage),
            ChannelEvents::NicknameError(_) => !(before.current_page is NicknameSelector),
            _ => false,
        },
    ensures
        after == before,
        command is Idle,
{
}

/// The page-transition table for what pages ask for. Only leaving the
/// program ends the loop.
pub proof fn lemma_result_transitions(
    before: App,
    result: Option<PageResults>,
    after: App,
    command: Command,
)
    requires
        App::after_page_result(before, result, after, command),
    ensures
        after.current_page.kind_of() == page_after_result(before, result),
        command is Exit <==> result == Some(PageResults::Exit),
{
}

/// A tick never changes the page but by calling a game off, and it never
/// touches host or token.
pub proof fn lemma_tick_transitions(
    before: App,
    elapsed_a: u128,
    elapsed_b: u128,
    after: App,
    command: Command,
)
    requires
        App::after_tick(before, elapsed_a, elapsed_b, after, command),
    ensures
        after.current_page.kind_of() == before.current_page.kind_of() || (
        after.current_page.kind_of() == PageKind::GameModeSelector && command is CloseSocket),
        after.host == before.host,
        after.auth_token == before.auth_token,
        !before.flushes() ==> after == before && command is Idle,
{
}

} // verus!
