//! JSON documents, one level at a time.
//!
//! Reading and writing JSON text is left to `serde_json`. The library sees a
//! document as a [`JsonNode`]: a scalar, or a list of members that are each
//! kept as the text of a document of their own. The rules that say which
//! documents fit which message are written over these nodes.

use crate::text::str_eq;
use serde_json::Value;
use vstd::prelude::*;

verus! {

/// The top level of a JSON document.
#[derive(Debug, Clone)]
pub enum JsonNode {
    Null,
    Bool(bool),
    /// A number: its value where it is a non-negative integer below 2^64,
    /// and the text that `serde_json` prints for it.
    Number(Option<u64>, String),
    Text(String),
    /// The items of an array, each as JSON text.
    Array(Vec<String>),
    /// The members of an object, each value as JSON text.
    Object(Vec<(String, String)>),
}

/// The mathematical value of a [`JsonNode`].
pub enum JsonNodeView {
    Null,
    Bool(bool),
    Number(Option<u64>, Seq<char>),
    Text(Seq<char>),
    Array(Seq<Seq<char>>),
    Object(Seq<(Seq<char>, Seq<char>)>),
}

impl View for JsonNode {
    type V = JsonNodeView;

    open spec fn view(&self) -> JsonNodeView {
        match self {
            JsonNode::Null => JsonNodeView::Null,
            JsonNode::Bool(b) => JsonNodeView::Bool(*b),
            JsonNode::Number(unsigned, literal) => JsonNodeView::Number(*unsigned, literal@),
            JsonNode::Text(s) => JsonNodeView::Text(s@),
            JsonNode::Array(items) => JsonNodeView::Array(items.deep_view()),
            JsonNode::Object(members) => JsonNodeView::Object(members.deep_view()),
        }
    }
}

/// What `serde_json` reads from a text: the top level of the document, or the
/// message of the error that it reports.
pub uninterp spec fn json_document(text: Seq<char>) -> Result<JsonNodeView, Seq<char>>;

/// The hexadecimal digit of a value below sixteen, in lower case.
pub open spec fn hex_digit(value: nat) -> char {
    if value < 10 {
        ('0' as int + value) as char
    } else {
        ('a' as int + value - 10) as char
    }
}

/// Whether a character stands for itself inside a JSON string literal: all
/// do but the double quote, the backslash and the control characters below
/// the space.
pub open spec fn is_plain(c: char) -> bool {
    c != '"' && c != '\\' && c as nat >= 0x20
}

/// What stands for a character inside a JSON string literal. The double
/// quote and the backslash get a backslash before them; backspace, tab, line
/// feed, form feed and carriage return are written `\b`, `\t`, `\n`, `\f`
/// and `\r`; any other control character below the space is written
/// `\u00` and its two hexadecimal digits; every other character stands for
/// itself.
pub open spec fn escape(c: char) -> Seq<char> {
    if c == '"' {
        seq!['\\', '"']
    } else if c == '\\' {
        seq!['\\', '\\']
    } else if c == '\u{8}' {
        seq!['\\', 'b']
    } else if c == '\t' {
        seq!['\\', 't']
    } else if c == '\n' {
        seq!['\\', 'n']
    } else if c == '\u{c}' {
        seq!['\\', 'f']
    } else if c == '\r' {
        seq!['\\', 'r']
    } else if (c as nat) < 0x20 {
        seq!['\\', 'u', '0', '0', hex_digit(c as nat / 16), hex_digit(c as nat % 16)]
    } else {
        seq![c]
    }
}

/// The characters of a string, each as it stands inside a JSON string
/// literal.
pub open spec fn escaped(s: Seq<char>) -> Seq<char>
    decreases s.len(),
{
    if s.len() == 0 {
        Seq::<char>::empty()
    } else {
        escaped(s.drop_last()) + escape(s.last())
    }
}

/// The JSON string literal of a string: its characters between double
/// quotes, escaped where JSON asks for it.
pub open spec fn json_string(s: Seq<char>) -> Seq<char> {
    seq!['"'] + escaped(s) + seq!['"']
}

/// A string of plain characters is written as it is, between double quotes.
pub proof fn lemma_plain_string(s: Seq<char>)
    requires
        forall|i: int| 0 <= i < s.len() ==> is_plain(#[trigger] s[i]),
    ensures
        escaped(s) == s,
        json_string(s) == seq!['"'] + s + seq!['"'],
    decreases s.len(),
{
    if s.len() > 0 {
        lemma_plain_string(s.drop_last());
        assert(is_plain(s.last()));
        assert(escaped(s) =~= s);
    }
}

/// The mathematical value of what reading a text gives.
pub open spec fn outcome_view(r: Result<JsonNode, String>) -> Result<JsonNodeView, Seq<char>> {
    match r {
        Ok(node) => Ok(node@),
        Err(message) => Err(message@),
    }
}

/// Reads the top level of a JSON document.
///
/// Trusted: the body calls `serde_json::from_str` at the type
/// `serde_json::Value` and moves the outcome into a [`JsonNode`]. A number
/// keeps what `Number::as_u64` returns and the text that `Number` prints;
/// the items of an array and the values of an object are each printed back to
/// JSON text with `Value::to_string`; an error is kept as its message. The
/// contract only names this outcome: the same text always gives the same one.
#[verifier::external_body]
pub(crate) fn read_document(text: &str) -> (r: Result<JsonNode, String>)
    ensures
        json_document(text@) == outcome_view(r),
{
    Ok(match serde_json::from_str(text).map_err(|e: serde_json::Error| e.to_string())? {
        Value::Null => JsonNode::Null,
        Value::Bool(b) => JsonNode::Bool(b),
        Value::Number(n) => JsonNode::Number(n.as_u64(), n.to_string()),
        Value::String(s) => JsonNode::Text(s),
        Value::Array(a) => JsonNode::Array(a.iter().map(Value::to_string).collect()),
        Value::Object(m) => JsonNode::Object(
            m.iter().map(|(k, v)| (k.clone(), v.to_string())).collect(),
        ),
    })
}

/// Writes a string as a JSON string literal.
///
/// Trusted: the body calls `serde_json::to_string` on the string, which
/// cannot fail for a string. The contract claims that the serializer writes
/// a double quote, then each character as [`escape`] says, then a double
/// quote: the escape table of its compact formatter, with hexadecimal digits
/// in lower case.
#[verifier::external_body]
pub(crate) fn write_string(s: &str) -> (literal: String)
    ensures
        literal@ == json_string(s@),
{
    serde_json::to_string(s).unwrap_or_default()
}

/// The members of an object with each value read as a document.
pub type JsonMembers = Vec<(String, JsonNode)>;

/// The mathematical value of a list of read members.
pub open spec fn members_view(members: Seq<(String, JsonNode)>) -> Seq<(Seq<char>, JsonNodeView)> {
    Seq::new(members.len(), |i: int| (members[i].0@, members[i].1@))
}

/// The document that a text holds, where it holds one.
pub open spec fn document(text: Seq<char>) -> Option<JsonNodeView> {
    match json_document(text) {
        Ok(node) => Some(node),
        Err(_) => None,
    }
}

/// The members of `raw` with each value read as a document; nothing where
/// one of the values holds no document.
pub open spec fn read_members(raw: Seq<(Seq<char>, Seq<char>)>) -> Option<
    Seq<(Seq<char>, JsonNodeView)>,
> {
    if forall|i: int| 0 <= i < raw.len() ==> (#[trigger] document(raw[i].1)) is Some {
        Some(Seq::new(raw.len(), |i: int| (raw[i].0, document(raw[i].1)->0)))
    } else {
        None
    }
}

/// The read members of the object that a text holds; nothing where the text
/// holds no document or its document is no object.
pub open spec fn object_members(text: Seq<char>) -> Option<Seq<(Seq<char>, JsonNodeView)>> {
    match document(text) {
        Some(JsonNodeView::Object(raw)) => read_members(raw),
        _ => None,
    }
}

/// The value of the first member at or after `from` whose key is `key`.
pub open spec fn member_from(
    members: Seq<(Seq<char>, JsonNodeView)>,
    key: Seq<char>,
    from: int,
) -> Option<JsonNodeView>
    decreases members.len() - from,
{
    if from >= members.len() {
        None
    } else if members[from].0 == key {
        Some(members[from].1)
    } else {
        member_from(members, key, from + 1)
    }
}

/// The value of the member named `key`.
pub open spec fn member(members: Seq<(Seq<char>, JsonNodeView)>, key: Seq<char>) -> Option<
    JsonNodeView,
> {
    member_from(members, key, 0)
}

/// The string that a member holds.
pub open spec fn text_member(members: Seq<(Seq<char>, JsonNodeView)>, key: Seq<char>) -> Option<
    Seq<char>,
> {
    match member(members, key) {
        Some(JsonNodeView::Text(s)) => Some(s),
        _ => None,
    }
}

/// The truth value that a member holds.
pub open spec fn bool_member(members: Seq<(Seq<char>, JsonNodeView)>, key: Seq<char>) -> Option<
    bool,
> {
    match member(members, key) {
        Some(JsonNodeView::Bool(b)) => Some(b),
        _ => None,
    }
}

/// The count that a member holds: a non-negative integer within the machine
/// word.
pub open spec fn count_member(members: Seq<(Seq<char>, JsonNodeView)>, key: Seq<char>) -> Option<
    usize,
> {
    match member(members, key) {
        Some(JsonNodeView::Number(Some(n), _)) => if n <= usize::MAX {
            Some(n as usize)
        } else {
            None
        },
        _ => None,
    }
}

/// The text of the number that a member holds.
pub open spec fn number_member(members: Seq<(Seq<char>, JsonNodeView)>, key: Seq<char>) -> Option<
    Seq<char>,
> {
    match member(members, key) {
        Some(JsonNodeView::Number(_, literal)) => Some(literal),
        _ => None,
    }
}

/// The read members of the object that a member holds.
pub open spec fn object_member(members: Seq<(Seq<char>, JsonNodeView)>, key: Seq<char>) -> Option<
    Seq<(Seq<char>, JsonNodeView)>,
> {
    match member(members, key) {
        Some(JsonNodeView::Object(raw)) => read_members(raw),
        _ => None,
    }
}

/// The strings that the texts `raw` hold, where each holds a JSON string.
pub open spec fn read_texts(raw: Seq<Seq<char>>) -> Option<Seq<Seq<char>>> {
    if forall|i: int| 0 <= i < raw.len() ==> (#[trigger] document(raw[i])) is Some && document(
        raw[i],
    )->0 is Text {
        Some(Seq::new(raw.len(), |i: int| document(raw[i])->0->Text_0))
    } else {
        None
    }
}

/// The strings of the array of strings that a member holds.
pub open spec fn texts_member(members: Seq<(Seq<char>, JsonNodeView)>, key: Seq<char>) -> Option<
    Seq<Seq<char>>,
> {
    match member(members, key) {
        Some(JsonNodeView::Array(raw)) => read_texts(raw),
        _ => None,
    }
}

/// Reads a text as a document, dropping the error's message.
pub fn read(text: &str) -> (r: Option<JsonNode>)
    ensures
        r is Some <==> document(text@) is Some,
        r matches Some(node) ==> document(text@) == Some(node@),
{
    match read_document(text) {
        Ok(node) => Some(node),
        Err(_) => None,
    }
}

/// Reads each value of `raw` as a document.
pub fn load_members(raw: &Vec<(String, String)>) -> (r: Option<JsonMembers>)
    ensures
        r is Some <==> read_members(raw.deep_view()) is Some,
        r matches Some(members) ==> read_members(raw.deep_view()) == Some(members_view(members@)),
{
    let mut members: JsonMembers = Vec::new();
    let mut i: usize = 0;
    while i < raw.len()
        invariant
            i <= raw.len(),
            members.len() == i,
            forall|j: int| 0 <= j < i ==> (#[trigger] document(raw.deep_view()[j].1)) is Some,
            forall|j: int|
                0 <= j < i ==> (#[trigger] members@[j]).0@ == raw.deep_view()[j].0
                    && document(raw.deep_view()[j].1) == Some(members@[j].1@),
        decreases raw.len() - i,
    {
        let key = raw[i].0.clone();
        assert(raw.deep_view()[i as int] == (raw@[i as int].0@, raw@[i as int].1@));
        match read(raw[i].1.as_str()) {
            Some(node) => {
                members.push((key, node));
            },
            None => {
                assert(document(raw.deep_view()[i as int].1) is None);
                return None;
            },
        }
        i = i + 1;
    }
    proof {
        let raw_view = raw.deep_view();
        assert(read_members(raw_view)->0 =~= members_view(members@));
    }
    Some(members)
}

/// Reads each of the texts `raw` as a JSON string.
pub fn load_texts(raw: &Vec<String>) -> (r: Option<Vec<String>>)
    ensures
        r is Some <==> read_texts(raw.deep_view()) is Some,
        r matches Some(texts) ==> read_texts(raw.deep_view()) == Some(texts.deep_view()),
{
    let mut texts: Vec<String> = Vec::new();
    let mut i: usize = 0;
    while i < raw.len()
        invariant
            i <= raw.len(),
            texts.len() == i,
            forall|j: int|
                0 <= j < i ==> (#[trigger] document(raw.deep_view()[j])) == Some(
                    JsonNodeView::Text(texts@[j]@),
                ),
        decreases raw.len() - i,
    {
        assert(raw.deep_view()[i as int] == raw@[i as int]@);
        match read(raw[i].as_str()) {
            Some(JsonNode::Text(s)) => {
                texts.push(s);
            },
            _ => {
                assert(!(document(raw.deep_view()[i as int]) is Some && document(
                    raw.deep_view()[i as int],
                )->0 is Text));
                return None;
            },
        }
        i = i + 1;
    }
    proof {
        assert(read_texts(raw.deep_view())->0 =~= texts.deep_view());
    }
    Some(texts)
}

/// Reads a text as an object and each of its values as a document.
pub fn load_object(text: &str) -> (r: Option<JsonMembers>)
    ensures
        r is Some <==> object_members(text@) is Some,
        r matches Some(members) ==> object_members(text@) == Some(members_view(members@)),
{
    match read(text) {
        Some(JsonNode::Object(raw)) => load_members(&raw),
        _ => None,
    }
}

/// The value of the member named `key`.
pub fn lookup<'a>(members: &'a JsonMembers, key: &str) -> (r: Option<&'a JsonNode>)
    ensures
        r is Some <==> member(members_view(members@), key@) is Some,
        r matches Some(node) ==> member(members_view(members@), key@) == Some(node@),
{
    let mut i: usize = 0;
    while i < members.len()
        invariant
            i <= members.len(),
            member(members_view(members@), key@) == member_from(
                members_view(members@),
                key@,
                i as int,
            ),
        decreases members.len() - i,
    {
        if str_eq(members[i].0.as_str(), key) {
            return Some(&members[i].1);
        }
        i = i + 1;
    }
    None
}

/// The string that the member named `key` holds.
pub fn lookup_text<'a>(members: &'a JsonMembers, key: &str) -> (r: Option<&'a String>)
    ensures
        r is Some <==> text_member(members_view(members@), key@) is Some,
        r matches Some(s) ==> text_member(members_view(members@), key@) == Some(s@),
{
    match lookup(members, key) {
        Some(JsonNode::Text(s)) => Some(s),
        _ => None,
    }
}

/// The truth value that the member named `key` holds.
pub fn lookup_bool(members: &JsonMembers, key: &str) -> (r: Option<bool>)
    ensures
        r == bool_member(members_view(members@), key@),
{
    match lookup(members, key) {
        Some(JsonNode::Bool(b)) => Some(*b),
        _ => None,
    }
}

/// The count that the member named `key` holds.
pub fn lookup_count(members: &JsonMembers, key: &str) -> (r: Option<usize>)
    ensures
        r == count_member(members_view(members@), key@),
{
    match lookup(members, key) {
        Some(JsonNode::Number(Some(value), _)) => if *value <= usize::MAX as u64 {
            Some(*value as usize)
        } else {
            None
        },
        _ => None,
    }
}

/// The text of the number that the member named `key` holds.
pub fn lookup_number<'a>(members: &'a JsonMembers, key: &str) -> (r: Option<&'a String>)
    ensures
        r is Some <==> number_member(members_view(members@), key@) is Some,
        r matches Some(s) ==> number_member(members_view(members@), key@) == Some(s@),
{
    match lookup(members, key) {
        Some(JsonNode::Number(_, literal)) => Some(literal),
        _ => None,
    }
}

/// The read members of the object that the member named `key` holds.
pub fn lookup_object(members: &JsonMembers, key: &str) -> (r: Option<JsonMembers>)
    ensures
        r is Some <==> object_member(members_view(members@), key@) is Some,
        r matches Some(inner) ==> object_member(members_view(members@), key@) == Some(
            members_view(inner@),
        ),
{
    match lookup(members, key) {
        Some(JsonNode::Object(raw)) => load_members(raw),
        _ => None,
    }
}

/// The strings of the array of strings that the member named `key` holds.
pub fn lookup_texts(members: &JsonMembers, key: &str) -> (r: Option<Vec<String>>)
    ensures
        r is Some <==> texts_member(members_view(members@), key@) is Some,
        r matches Some(texts) ==> texts_member(members_view(members@), key@) == Some(
            texts.deep_view(),
        ),
{
    match lookup(members, key) {
        Some(JsonNode::Array(raw)) => load_texts(raw),
        _ => None,
    }
}

} // verus!
