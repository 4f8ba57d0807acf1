//! What a page can ask of the session.

use crate::game::movement::now;
use crate::ui::game::Game;
use crate::ui::game_lobby::GameLobbyPage;
use crate::ui::game_over::GameOverPage;
use crate::ui::gamemode::{GameModePage, GameModes};
use crate::ui::host_selector::HostSelectorPage;
use crate::ui::input::{KeyEvent, KeyKind};
use crate::ui::join_room::JoinRoomPage;
use crate::ui::login::LoginPage;
use crate::ui::nickname_page::NicknamePage;
use crate::ui::totp::TotpPage;
use std::time::Instant;
use crate::websocket::events::request::PaddleMoveDirection;
use vstd::prelude::*;

verus! {

/// How the user wants to log in.
#[derive(Debug, Clone, Copy, PartialEq, Eq, Structural)]
pub enum LoginType {
    LocalLogin,
    RemoteLogin,
}

/// What a page asks of the session when a key has been handled.
#[derive(Debug, PartialEq, Eq)]
pub enum PageResults {
    HostSelected((String, LoginType)),
    NicknameSelected(String),
    Login((String, String)),
    Totp(String),
    BackToMenu,
    GameModeChosen(GameModes),
    JoinRoom(String),
    UpdatePaddleMovement((PaddleMoveDirection, PaddleMoveDirection)),
    GamePaused(bool),
    GameOver,
    Exit,
}

/// The kinds of page.
#[derive(Debug, Clone, Copy, PartialEq, Eq, Structural)]
pub enum PageKind {
    HostSelector,
    NicknameSelector,
    Login,
    TotpPage,
    GameModeSelector,
    JoinRoom,
    GameLobby,
    Game,
    GameOver,
}

/// The page that is on the screen. There is exactly one at a time.
#[derive(Debug)]
pub enum Pages {
    HostSelector(HostSelectorPage),
    NicknameSelector(NicknamePage),
    Login(LoginPage),
    TotpPage(TotpPage),
    GameModeSelector(GameModePage),
    JoinRoom(JoinRoomPage),
    GameLobby(GameLobbyPage),
    Game(Game),
    GameOver(GameOverPage),
}

impl Pages {
    /// Which kind of page this is.
    pub open spec fn kind_of(&self) -> PageKind {
        match self {
            Pages::HostSelector(_) => PageKind::HostSelector,
            Pages::NicknameSelector(_) => PageKind::NicknameSelector,
            Pages::Login(_) => PageKind::Login,
            Pages::TotpPage(_) => PageKind::TotpPage,
            Pages::GameModeSelector(_) => PageKind::GameModeSelector,
            Pages::JoinRoom(_) => PageKind::JoinRoom,
            Pages::GameLobby(_) => PageKind::GameLobby,
            Pages::Game(_) => PageKind::Game,
            Pages::GameOver(_) => PageKind::GameOver,
        }
    }

    /// Which kind of page this is.
    pub fn kind(&self) -> (kind: PageKind)
        ensures
            kind == self.kind_of(),
    {
        match self {
            Pages::HostSelector(_) => PageKind::HostSelector,
            Pages::NicknameSelector(_) => PageKind::NicknameSelector,
            Pages::Login(_) => PageKind::Login,
            Pages::TotpPage(_) => PageKind::TotpPage,
            Pages::GameModeSelector(_) => PageKind::GameModeSelector,
            Pages::JoinRoom(_) => PageKind::JoinRoom,
            Pages::GameLobby(_) => PageKind::GameLobby,
            Pages::Game(_) => PageKind::Game,
            Pages::GameOver(_) => PageKind::GameOver,
        }
    }

    /// Whether `after` and `r` are the answer of the page `before` to `key`,
    /// which happened at the moment `at`.
    ///
    /// The game page sees every key event, and it alone looks at the moment.
    /// Every other page sees presses only, and a key event of another kind
    /// does nothing there. A key never changes which page is on the screen.
    pub open spec fn answers(
        before: Pages,
        key: KeyEvent,
        at: Instant,
        after: Pages,
        r: Option<PageResults>,
    ) -> bool {
        if !(before is Game) && !(key.kind is Press) {
            after == before && r is None
        } else {
            match before {
                Pages::HostSelector(page) => after matches Pages::HostSelector(next)
                    && HostSelectorPage::answers(page, key, next, r),
                Pages::NicknameSelector(page) => after matches Pages::NicknameSelector(next)
                    && NicknamePage::answers(page, key, next, r),
                Pages::Login(page) => after matches Pages::Login(next) && LoginPage::answers(
                    page,
                    key,
                    next,
                    r,
                ),
                Pages::TotpPage(page) => after matches Pages::TotpPage(next) && TotpPage::answers(
                    page,
                    key,
                    next,
                    r,
                ),
                Pages::GameModeSelector(page) => after matches Pages::GameModeSelector(next)
                    && GameModePage::answers(page, key, next, r),
                Pages::JoinRoom(page) => after matches Pages::JoinRoom(next)
                    && JoinRoomPage::answers(page, key, next, r),
                Pages::GameLobby(page) => after matches Pages::GameLobby(next)
                    && GameLobbyPage::answers(page, key, next, r),
                Pages::Game(page) => after matches Pages::Game(next) && Game::answers(
                    page,
                    key,
                    at,
                    next,
                    r,
                ),
                Pages::GameOver(page) => after == before && r == GameOverPage::asked(key),
            }
        }
    }

    /// Hands a key that happened at the moment `at` to the page on the
    /// screen; see [`Pages::answers`].
    pub fn key_event_at(&mut self, key: &KeyEvent, at: Instant) -> (r: Option<PageResults>)
        ensures
            Self::answers(*old(self), *key, at, *final(self), r),
    {
        let press = match key.kind {
            KeyKind::Press => true,
            _ => false,
        };
        match self {
            Pages::Game(page) => page.key_event_at(key, at),
            Pages::HostSelector(page) => if press {
                page.key_event(key)
            } else {
                None
            },
            Pages::NicknameSelector(page) => if press {
                page.key_event(key)
            } else {
                None
            },
            Pages::Login(page) => if press {
                page.key_event(key)
            } else {
                None
            },
            Pages::TotpPage(page) => if press {
                page.key_event(key)
            } else {
                None
            },
            Pages::GameModeSelector(page) => if press {
                page.key_event(key)
            } else {
                None
            },
            Pages::JoinRoom(page) => if press {
                page.key_event(key)
            } else {
                None
            },
            Pages::GameLobby(page) => if press {
                page.key_event(key)
            } else {
                None
            },
            Pages::GameOver(page) => if press {
                page.key_event(key)
            } else {
                None
            },
        }
    }

    /// Hands a key that happens now to the page on the screen; see
    /// [`Pages::answers`]. The clock decides which moment `at` holds.
    pub fn key_event(&mut self, key: &KeyEvent) -> (r: Option<PageResults>)
        ensures
            exists|at: Instant| #[trigger] Self::answers(*old(self), *key, at, *final(self), r),
    {
        let at = now();
        self.key_event_at(key, at)
    }

    /// Whether the page on the screen has something new to draw.
    pub open spec fn stale(&self) -> bool {
        match self {
            Pages::HostSelector(page) => page.needs_update,
            Pages::NicknameSelector(page) => page.needs_update,
            Pages::Login(page) => page.needs_update,
            Pages::TotpPage(page) => page.needs_update,
            Pages::GameModeSelector(page) => page.needs_update,
            Pages::JoinRoom(page) => page.needs_update,
            Pages::GameLobby(page) => page.needs_update,
            Pages::Game(page) => page.needs_update,
            Pages::GameOver(page) => page.needs_update,
        }
    }

    /// Whether the page on the screen has something new to draw.
    pub fn needs_update(&self) -> (r: bool)
        ensures
            r == self.stale(),
    {
        match self {
            Pages::HostSelector(page) => page.needs_update(),
            Pages::NicknameSelector(page) => page.needs_update(),
            Pages::Login(page) => page.needs_update(),
            Pages::TotpPage(page) => page.needs_update(),
            Pages::GameModeSelector(page) => page.needs_update(),
            Pages::JoinRoom(page) => page.needs_update(),
            Pages::GameLobby(page) => page.needs_update(),
            Pages::Game(page) => page.needs_update(),
            Pages::GameOver(page) => page.needs_update(),
        }
    }

    /// The page with nothing new to draw.
    pub open spec fn fresh(self) -> Pages {
        match self {
            Pages::HostSelector(page) => Pages::HostSelector(
                HostSelectorPage { needs_update: false, ..page },
            ),
            Pages::NicknameSelector(page) => Pages::NicknameSelector(
                NicknamePage { needs_update: false, ..page },
            ),
            Pages::Login(page) => Pages::Login(LoginPage { needs_update: false, ..page }),
            Pages::TotpPage(page) => Pages::TotpPage(TotpPage { needs_update: false, ..page }),
            Pages::GameModeSelector(page) => Pages::GameModeSelector(
                GameModePage { needs_update: false, ..page },
            ),
            Pages::JoinRoom(page) => Pages::JoinRoom(JoinRoomPage { needs_update: false, ..page }),
            Pages::GameLobby(page) => Pages::GameLobby(
                GameLobbyPage { needs_update: false, ..page },
            ),
            Pages::Game(page) => Pages::Game(Game { needs_update: false, ..page }),
            Pages::GameOver(page) => Pages::GameOver(GameOverPage { needs_update: false, ..page }),
        }
    }

    /// Takes note that the page on the screen was drawn.
    pub fn drawn(&mut self)
        ensures
            *final(self) == old(self).fresh(),
    {
        match self {
            Pages::HostSelector(page) => page.drawn(),
            Pages::NicknameSelector(page) => page.drawn(),
            Pages::Login(page) => page.drawn(),
            Pages::TotpPage(page) => page.drawn(),
            Pages::GameModeSelector(page) => page.drawn(),
            Pages::JoinRoom(page) => page.drawn(),
            Pages::GameLobby(page) => page.drawn(),
            Pages::Game(page) => page.drawn(),
            Pages::GameOver(page) => page.drawn(),
        }
    }
}

/// A key never changes which kind of page is on the screen: pages change
/// only where the session acts on what a page has asked for.
pub proof fn lemma_key_keeps_page(
    before: Pages,
    key: KeyEvent,
    at: Instant,
    after: Pages,
    r: Option<PageResults>,
)
    requires
        Pages::answers(before, key, at, after, r),
    ensures
        after.kind_of() == before.kind_of(),
{
}

} // verus!
