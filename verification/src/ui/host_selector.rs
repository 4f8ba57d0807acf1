//! The page on which the user names the server and picks a way to log in.

use crate::auth::LoginErrors;
use crate::ui::input::{
    ascii_graphic, byte_len, empty_field, field_cursor, field_text, handle_key, handled,
    is_graphic, value, with_value, KeyCode, KeyEvent,
};
use crate::ui::pages::{LoginType, PageResults};
use tui_input::Input;
use vstd::prelude::*;

verus! {

/// The two ways to log in, as the page lists them.
#[derive(Debug, Clone, Copy, PartialEq, Eq, Structural)]
pub enum Field {
    LocalLogin,
    RemoteLogin,
}

impl Field {
    /// The other entry.
    pub open spec fn other(self) -> Field {
        match self {
            Field::LocalLogin => Field::RemoteLogin,
            Field::RemoteLogin => Field::LocalLogin,
        }
    }

    /// The way to log in that the entry stands for.
    pub open spec fn login_type(self) -> LoginType {
        match self {
            Field::LocalLogin => LoginType::LocalLogin,
            Field::RemoteLogin => LoginType::RemoteLogin,
        }
    }
}

/// The host page: the host's name, the entry under the cursor, whether there
/// is something new to draw, and the error to show.
#[derive(Debug)]
pub struct HostSelectorPage {
    pub host: Input,
    pub selected_field: Field,
    pub needs_update: bool,
    pub error_message: Option<String>,
}

/// How an attempt to log in from a page ended.
#[derive(Debug)]
pub enum LoginResult {
    Login((String, String)),
    Abort,
}

/// The longest host name that the page takes, in bytes.
pub const HOST_LIMIT: usize = 32;

/// The host that the page proposes of itself.
pub open spec fn default_host(debug: bool) -> Seq<char> {
    if debug {
        "localhost"@
    } else {
        "ft-transcendence.at"@
    }
}

impl HostSelectorPage {
    /// Whether the page is as it first shows in a build of the given kind:
    /// the proposed host, the cursor on the first entry, no error, everything
    /// to draw.
    pub open spec fn is_initial(&self, debug: bool) -> bool {
        &&& field_text(self.host) == default_host(debug)
        &&& field_cursor(self.host) == default_host(debug).len()
        &&& self.selected_field == Field::LocalLogin
        &&& self.needs_update
        &&& self.error_message is None
    }

    /// The page as it first shows, with the host that a build of the given
    /// kind proposes.
    pub fn new(debug: bool) -> (r: Self)
        ensures
            r.is_initial(debug),
    {
        let host = if debug {
            "localhost"
        } else {
            "ft-transcendence.at"
        };
        Self {
            host: with_value(empty_field(), host.to_owned()),
            selected_field: Field::LocalLogin,
            needs_update: true,
            error_message: None,
        }
    }

    /// Whether `after` and `r` are the page's answer to `key` on `before`.
    ///
    /// Escape asks to leave the program. A visible ASCII character goes to
    /// the host field while the host is shorter than 32 bytes, and backspace
    /// goes to it always. Tab moves the cursor to the other entry, the arrows
    /// to the upper and the lower one. Enter asks for the login under the
    /// cursor at the host, or complains where there is no host.
    pub open spec fn answers(before: Self, key: KeyEvent, after: Self, r: Option<PageResults>)
        -> bool {
        match key.code {
            KeyCode::Esc => after == before && r == Some(PageResults::Exit),
            KeyCode::Char(c) => {
                &&& r is None
                &&& after.selected_field == before.selected_field
                &&& after.error_message == before.error_message
                &&& if byte_len(field_text(before.host)) < HOST_LIMIT && is_graphic(c) {
                    handled(before.host, after.host, Some(c), key) && after.needs_update
                } else {
                    after.host == before.host && after.needs_update == before.needs_update
                }
            },
            KeyCode::Backspace => {
                &&& r is None
                &&& after.selected_field == before.selected_field
                &&& after.error_message == before.error_message
                &&& handled(before.host, after.host, None, key)
                &&& after.needs_update
            },
            KeyCode::Tab => r is None && after == (HostSelectorPage {
                selected_field: before.selected_field.other(),
                needs_update: true,
                ..before
            }),
            KeyCode::Up => r is None && after == (HostSelectorPage {
                selected_field: Field::LocalLogin,
                needs_update: true,
                ..before
            }),
            KeyCode::Down => r is None && after == (HostSelectorPage {
                selected_field: Field::RemoteLogin,
                needs_update: true,
                ..before
            }),
            KeyCode::Enter => if field_text(before.host).len() == 0 {
                &&& r is None
                &&& after.host == before.host
                &&& after.selected_field == before.selected_field
                &&& after.needs_update
                &&& after.error_message matches Some(message) && message@ == "Host can't be empty"@
            } else {
                &&& after == before
                &&& r matches Some(PageResults::HostSelected((host, login_type)))
                &&& host@ == field_text(before.host)
                &&& login_type == before.selected_field.login_type()
            },
            KeyCode::Other => after == before && r is None,
        }
    }

    /// Handles a key; see [`HostSelectorPage::answers`].
    pub fn key_event(&mut self, key: &KeyEvent) -> (r: Option<PageResults>)
        ensures
            Self::answers(*old(self), *key, *final(self), r),
    {
        match key.code {
            KeyCode::Esc => {
                return Some(PageResults::Exit);
            },
            KeyCode::Char(c) => {
                if value(&self.host).len() < HOST_LIMIT && ascii_graphic(c) {
                    handle_key(&mut self.host, Some(c), key.modifiers, key.kind);
                    self.needs_update = true;
                }
            },
            KeyCode::Backspace => {
                handle_key(&mut self.host, None, key.modifiers, key.kind);
                self.needs_update = true;
            },
            KeyCode::Tab => self.focus_other_widget(),
            KeyCode::Up => {
                self.selected_field = Field::LocalLogin;
                self.needs_update = true;
            },
            KeyCode::Down => {
                self.selected_field = Field::RemoteLogin;
                self.needs_update = true;
            },
            KeyCode::Enter => {
                if value(&self.host).is_empty() {
                    self.error_message = Some("Host can't be empty".to_owned());
                    self.needs_update = true;
                    return None;
                }
                let host = value(&self.host).to_owned();
                match self.selected_field {
                    Field::LocalLogin => {
                        return Some(PageResults::HostSelected((host, LoginType::LocalLogin)));
                    },
                    Field::RemoteLogin => {
                        return Some(PageResults::HostSelected((host, LoginType::RemoteLogin)));
                    },
                }
            },
            KeyCode::Other => {},
        }
        None
    }

    /// Whether `after` is `before` with a failed remote login shown: the
    /// host and the entry under the cursor stay, the message is on the page
    /// and the page is to be drawn.
    pub open spec fn shows_error(before: Self, message: Seq<char>, after: Self) -> bool {
        &&& after.host == before.host
        &&& after.selected_field == before.selected_field
        &&& after.needs_update
        &&& after.error_message matches Some(shown) && shown@ == message
    }

    /// Shows an error.
    pub fn host_error(&mut self, error: &LoginErrors)
        ensures
            Self::shows_error(*old(self), error.text(), *final(self)),
    {
        self.needs_update = true;
        self.error_message = Some(error.message());
    }

    /// Moves the cursor to the other entry.
    pub fn focus_other_widget(&mut self)
        ensures
            *final(self) == (HostSelectorPage {
                selected_field: old(self).selected_field.other(),
                needs_update: true,
                ..*old(self)
            }),
    {
        self.needs_update = true;
        self.selected_field = match self.selected_field {
            Field::LocalLogin => Field::RemoteLogin,
            Field::RemoteLogin => Field::LocalLogin,
        }
    }

    /// Whether there is something new to draw.
    pub fn needs_update(&self) -> (r: bool)
        ensures
            r == self.needs_update,
    {
        self.needs_update
    }

    /// Takes note that the page was drawn.
    pub fn drawn(&mut self)
        ensures
            *final(self) == (HostSelectorPage { needs_update: false, ..*old(self) }),
    {
        self.needs_update = false;
    }
}

} // verus!
