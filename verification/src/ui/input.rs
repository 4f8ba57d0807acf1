//! Keys as the pages see them, and the one-line text field.

use crossterm::event::{Event, KeyCode as Code, KeyEvent as Key, KeyEventKind as Kind, KeyModifiers};
use tui_input::backend::crossterm::EventHandler;
use tui_input::Input;
use vstd::prelude::*;
use vstd::utf8::encode_utf8;

verus! {

/// The keys that the pages tell apart.
#[derive(Debug, Clone, Copy, PartialEq, Eq, Structural)]
pub enum KeyCode {
    Esc,
    Enter,
    Tab,
    Backspace,
    Up,
    Down,
    Char(char),
    /// Any other key.
    Other,
}

/// What happened to a key.
#[derive(Debug, Clone, Copy, PartialEq, Eq, Structural)]
pub enum KeyKind {
    Press,
    Repeat,
    Release,
}

/// A key event: the key, the modifier keys held with it as the terminal
/// library's bit set (shift 1, control 2, alt 4, super 8, hyper 16, meta 32),
/// and what happened to the key.
#[derive(Debug, Clone, Copy, PartialEq, Eq, Structural)]
pub struct KeyEvent {
    pub code: KeyCode,
    pub modifiers: u8,
    pub kind: KeyKind,
}

impl KeyEvent {
    /// A press of `code` with no modifier held.
    pub fn press(code: KeyCode) -> (key: Self)
        ensures
            key == (KeyEvent { code, modifiers: 0, kind: KeyKind::Press }),
    {
        KeyEvent { code, modifiers: 0, kind: KeyKind::Press }
    }
}

/// Whether `c` is a visible ASCII character: `!` to `~`.
pub open spec fn is_graphic(c: char) -> bool {
    '!' <= c && c <= '~'
}

/// Whether `c` is an ASCII digit.
pub open spec fn is_decimal(c: char) -> bool {
    '0' <= c && c <= '9'
}

/// Whether `c` is an ASCII letter or an ASCII digit.
pub open spec fn is_alphanumeric(c: char) -> bool {
    ('0' <= c && c <= '9') || ('A' <= c && c <= 'Z') || ('a' <= c && c <= 'z')
}

/// `c` with an ASCII lower-case letter turned into its upper-case form.
pub open spec fn upper(c: char) -> char {
    if 'a' <= c && c <= 'z' {
        ((c as u8) - 32) as char
    } else {
        c
    }
}

/// Whether `c` is a visible ASCII character.
pub fn ascii_graphic(c: char) -> (r: bool)
    ensures
        r == is_graphic(c),
{
    '!' <= c && c <= '~'
}

/// Whether `c` is an ASCII digit.
pub fn ascii_digit(c: char) -> (r: bool)
    ensures
        r == is_decimal(c),
{
    '0' <= c && c <= '9'
}

/// Whether `c` is an ASCII letter or an ASCII digit.
pub fn ascii_alphanumeric(c: char) -> (r: bool)
    ensures
        r == is_alphanumeric(c),
{
    ('0' <= c && c <= '9') || ('A' <= c && c <= 'Z') || ('a' <= c && c <= 'z')
}

/// `c` in upper case, where it is an ASCII letter.
pub fn ascii_upper(c: char) -> (r: char)
    ensures
        r == upper(c),
{
    if 'a' <= c && c <= 'z' {
        ((c as u8) - 32) as char
    } else {
        c
    }
}

/// The number of bytes that a text takes in UTF-8, as the machine counts
/// them.
pub open spec fn byte_len(text: Seq<char>) -> usize {
    encode_utf8(text).len() as usize
}

/// The text field of the terminal input library. Nothing of it is visible
/// to the proofs but what the two names below say.
#[verifier::external_type_specification]
#[verifier::external_body]
pub struct ExInput(Input);

/// The text that a field holds.
pub uninterp spec fn field_text(field: Input) -> Seq<char>;

/// Where a field's cursor stands: the number of characters before it.
pub uninterp spec fn field_cursor(field: Input) -> nat;

/// What a key makes of a field: the text and the cursor that the input
/// library leaves behind when a field with the given text and cursor handles
/// the key. `typed` is the character of a character key, and nothing for the
/// backspace key.
pub uninterp spec fn edited(
    text: Seq<char>,
    cursor: nat,
    typed: Option<char>,
    modifiers: u8,
    kind: KeyKind,
) -> (Seq<char>, nat);

/// Whether `after` is what the input library makes of `before` when it
/// handles the key `key`, taken for the character key of `typed` or, where
/// there is none, for the backspace key.
pub open spec fn handled(before: Input, after: Input, typed: Option<char>, key: KeyEvent) -> bool {
    (field_text(after), field_cursor(after)) == edited(
        field_text(before),
        field_cursor(before),
        typed,
        key.modifiers,
        key.kind,
    )
}

/// An empty field.
///
/// Trusted: the body is `Input::default`, which the library derives: an empty
/// text, the cursor at 0.
#[verifier::external_body]
pub(crate) fn empty_field() -> (field: Input)
    ensures
        field_text(field) == Seq::<char>::empty(),
        field_cursor(field) == 0,
{
    Input::default()
}

/// The field with its text replaced.
///
/// Trusted: the body is `Input::with_value`, which stores the text and puts
/// the cursor behind its last character.
#[verifier::external_body]
pub(crate) fn with_value(field: Input, value: String) -> (filled: Input)
    ensures
        field_text(filled) == value@,
        field_cursor(filled) == value@.len(),
{
    field.with_value(value)
}

/// The text of a field.
///
/// Trusted: the body is `Input::value`, which hands out the stored text.
#[verifier::external_body]
pub(crate) fn value(field: &Input) -> (text: &str)
    ensures
        text@ == field_text(*field),
{
    field.value()
}

/// Empties a field.
///
/// Trusted: the body is `Input::reset`, which sets text and cursor to their
/// defaults: an empty text, the cursor at 0.
#[verifier::external_body]
pub(crate) fn reset(field: &mut Input)
    ensures
        field_text(*final(field)) == Seq::<char>::empty(),
        field_cursor(*final(field)) == 0,
{
    field.reset()
}

/// Lets a field handle a character key or the backspace key.
///
/// Trusted: the body builds the terminal library's key event (the character
/// key of `typed`, or backspace where there is none; the modifiers of the
/// given bit set, unknown bits dropped; the given kind) and hands it to the
/// field's `handle_event`. Which edit the input library makes of it depends
/// on key, modifiers and kind; the contract only names what is left behind.
#[verifier::external_body]
pub(crate) fn handle_key(field: &mut Input, typed: Option<char>, modifiers: u8, kind: KeyKind)
    ensures
        (field_text(*final(field)), field_cursor(*final(field))) == edited(
            field_text(*old(field)),
            field_cursor(*old(field)),
            typed,
            modifiers,
            kind,
        ),
{
    let code = match typed {
        Some(c) => Code::Char(c),
        None => Code::Backspace,
    };
    let kind = match kind {
        KeyKind::Press => Kind::Press,
        KeyKind::Repeat => Kind::Repeat,
        KeyKind::Release => Kind::Release,
    };
    let modifiers = KeyModifiers::from_bits_truncate(modifiers);
    field.handle_event(&Event::Key(Key::new_with_kind(code, modifiers, kind)));
}

} // verus!
