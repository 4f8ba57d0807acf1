//! Frame codec: a decimal opcode directly followed by a JSON document.
//!
//! Both framing layers of the protocol use this layout. The payload of a
//! frame starts at the first `{` or `[` of the text; what stands before it is
//! the opcode.

use vstd::prelude::*;
use vstd::string::*;

verus! {

/// Whether `c` is one of the ten decimal digits.
pub open spec fn is_digit(c: char) -> bool {
    '0' <= c && c <= '9'
}

/// The number that the decimal digit `c` stands for.
pub open spec fn digit_value(c: char) -> nat {
    (c as int - '0' as int) as nat
}

/// The character of the decimal digit `d`.
pub open spec fn digit_char(d: nat) -> char {
    ('0' as int + d as int) as char
}

/// Whether every character of `s` is a decimal digit.
pub open spec fn all_digits(s: Seq<char>) -> bool {
    forall|i: int| 0 <= i < s.len() ==> is_digit(#[trigger] s[i])
}

/// The number that the digit string `s` denotes in base ten; zero for the
/// empty string.
pub open spec fn digits_value(s: Seq<char>) -> nat
    decreases s.len(),
{
    if s.len() == 0 {
        0
    } else {
        digits_value(s.drop_last()) * 10 + digit_value(s.last())
    }
}

/// The shortest decimal digit string that denotes `n`.
pub open spec fn decimal(n: nat) -> Seq<char>
    decreases n,
{
    if n < 10 {
        seq![digit_char(n)]
    } else {
        decimal(n / 10).push(digit_char(n % 10))
    }
}

/// The opcode that a frame prefix denotes: an optional `+`, then at least one
/// decimal digit, the value within the machine word. Anything else denotes no
/// opcode.
pub open spec fn opcode_of(prefix: Seq<char>) -> Option<usize> {
    let digits = if prefix.len() > 0 && prefix[0] == '+' {
        prefix.skip(1)
    } else {
        prefix
    };
    if digits.len() > 0 && all_digits(digits) && digits_value(digits) <= usize::MAX {
        Some(digits_value(digits) as usize)
    } else {
        None
    }
}

/// Whether `c` opens a JSON object or a JSON array.
pub open spec fn opens_json(c: char) -> bool {
    c == '{' || c == '['
}

/// The index of the first `{` or `[` of `text` at or after `from`; the length
/// of `text` when there is none.
pub open spec fn payload_start(text: Seq<char>, from: int) -> int
    decreases text.len() - from,
{
    if from >= text.len() {
        text.len() as int
    } else if opens_json(text[from]) {
        from
    } else {
        payload_start(text, from + 1)
    }
}

/// What a frame decodes to: the opcode and the payload, or nothing where the
/// text holds no `{` or `[`, holds one at its very start, or has a prefix that
/// denotes no opcode.
pub open spec fn decoded(text: Seq<char>) -> Option<(usize, Seq<char>)> {
    let pos = payload_start(text, 0);
    if pos == 0 || pos >= text.len() {
        None
    } else {
        match opcode_of(text.take(pos)) {
            Some(opcode) => Some((opcode, text.skip(pos))),
            None => None,
        }
    }
}

/// The text of the frame with the given opcode and payload.
pub open spec fn encoded(opcode: usize, payload: Seq<char>) -> Seq<char> {
    decimal(opcode as nat) + payload
}

/// A digit string denotes at least what any of its prefixes denotes.
proof fn lemma_digits_value_grows(s: Seq<char>, k: int)
    requires
        0 <= k <= s.len(),
    ensures
        digits_value(s.take(k)) <= digits_value(s),
    decreases s.len(),
{
    if k == s.len() {
        assert(s.take(k) =~= s);
    } else {
        lemma_digits_value_grows(s.drop_last(), k);
        assert(s.drop_last().take(k) =~= s.take(k));
        assert(digits_value(s.drop_last()) * 10 >= digits_value(s.drop_last()))
            by (nonlinear_arith);
    }
}

/// `payload_start` is the first index at or after `from` that opens JSON.
proof fn lemma_payload_start(text: Seq<char>, from: int)
    requires
        0 <= from <= text.len(),
    ensures
        from <= payload_start(text, from) <= text.len(),
        forall|i: int| from <= i < payload_start(text, from) ==> !opens_json(#[trigger] text[i]),
        payload_start(text, from) < text.len() ==> opens_json(text[payload_start(text, from)]),
    decreases text.len() - from,
{
    if from < text.len() && !opens_json(text[from]) {
        lemma_payload_start(text, from + 1);
    }
}

/// The decimal form of a number is a non-empty digit string that denotes it.
pub proof fn lemma_decimal_denotes(n: nat)
    ensures
        decimal(n).len() > 0,
        all_digits(decimal(n)),
        digits_value(decimal(n)) == n,
    decreases n,
{
    let s = decimal(n);
    if n < 10 {
        assert(s.drop_last() =~= Seq::<char>::empty());
        assert(digits_value(s.drop_last()) == 0);
        assert(digit_value(s.last()) == n);
    } else {
        lemma_decimal_denotes(n / 10);
        assert(s.drop_last() =~= decimal(n / 10));
        assert(digit_value(s.last()) == n % 10);
        assert forall|i: int| 0 <= i < s.len() implies is_digit(#[trigger] s[i]) by {
            if i < s.len() - 1 {
                assert(s[i] == decimal(n / 10)[i]);
            }
        }
    }
}

/// Round trip: a frame built from an opcode and a payload that opens with `{`
/// or `[` decodes to that opcode and that payload.
pub proof fn lemma_decode_encode(opcode: usize, payload: Seq<char>)
    requires
        payload.len() > 0,
        opens_json(payload[0]),
    ensures
        decoded(encoded(opcode, payload)) == Some((opcode, payload)),
{
    let digits = decimal(opcode as nat);
    let text = encoded(opcode, payload);
    lemma_decimal_denotes(opcode as nat);
    lemma_payload_start(text, 0);
    let pos = payload_start(text, 0);
    assert(text[digits.len() as int] == payload[0]);
    if pos < digits.len() {
        assert(text[pos] == digits[pos]);
    }
    assert(pos == digits.len());
    assert(text.take(pos) =~= digits);
    assert(text.skip(pos) =~= payload);
    assert(digits[0] != '+');
}

/// A text decodes exactly when its first `{` or `[` stands behind a prefix
/// that denotes an opcode. So a text is rejected where it holds neither
/// character, where the first of them stands at index 0, and where the prefix
/// is no unsigned decimal number within the machine word.
pub proof fn lemma_decode_rejects(text: Seq<char>)
    ensures
        decoded(text) is Some <==> {
            &&& 0 < payload_start(text, 0) < text.len()
            &&& opcode_of(text.take(payload_start(text, 0))) is Some
        },
        text.len() > 0 && opens_json(text[0]) ==> decoded(text) is None,
        (forall|i: int| 0 <= i < text.len() ==> !opens_json(#[trigger] text[i])) ==> decoded(
            text,
        ) is None,
{
    lemma_payload_start(text, 0);
}

/// The string of one decimal digit.
fn digit_str(d: usize) -> (s: &'static str)
    requires
        d < 10,
    ensures
        s@ == seq![digit_char(d as nat)],
{
    proof {
        reveal_strlit("0");
        reveal_strlit("1");
        reveal_strlit("2");
        reveal_strlit("3");
        reveal_strlit("4");
        reveal_strlit("5");
        reveal_strlit("6");
        reveal_strlit("7");
        reveal_strlit("8");
        reveal_strlit("9");
    }
    let s = if d == 0 {
        "0"
    } else if d == 1 {
        "1"
    } else if d == 2 {
        "2"
    } else if d == 3 {
        "3"
    } else if d == 4 {
        "4"
    } else if d == 5 {
        "5"
    } else if d == 6 {
        "6"
    } else if d == 7 {
        "7"
    } else if d == 8 {
        "8"
    } else {
        "9"
    };
    assert(s@ =~= seq![digit_char(d as nat)]);
    s
}

/// Writes `n` in decimal.
pub fn decimal_string(n: usize) -> (s: String)
    ensures
        s@ == decimal(n as nat),
    decreases n,
{
    if n < 10 {
        digit_str(n).to_owned()
    } else {
        let mut s = decimal_string(n / 10);
        s.append(digit_str(n % 10));
        assert(s@ =~= decimal((n / 10) as nat).push(digit_char((n % 10) as nat)));
        s
    }
}

/// Builds the frame `<opcode><payload>`.
pub fn encode(opcode: usize, payload: &str) -> (frame: String)
    ensures
        frame@ == encoded(opcode, payload@),
{
    let mut frame = decimal_string(opcode);
    frame.append(payload);
    frame
}

/// Reads the opcode that the characters `from..to` of `text` denote.
fn parse_digits(text: &str, from: usize, to: usize) -> (r: Option<usize>)
    requires
        from <= to <= text@.len(),
    ensures
        r == ({
            let digits = text@.subrange(from as int, to as int);
            if digits.len() > 0 && all_digits(digits) && digits_value(digits) <= usize::MAX {
                Some(digits_value(digits) as usize)
            } else {
                None::<usize>
            }
        }),
{
    let ghost digits = text@.subrange(from as int, to as int);
    if from == to {
        return None;
    }
    let mut value: usize = 0;
    let mut i: usize = from;
    while i < to
        invariant
            from <= i <= to <= text@.len(),
            digits == text@.subrange(from as int, to as int),
            all_digits(digits.take(i - from)),
            value == digits_value(digits.take(i - from)),
        decreases to - i,
    {
        let c = text.get_char(i);
        assert(c == digits[i - from]);
        if !('0' <= c && c <= '9') {
            return None;
        }
        let d: usize = (c as u32 - '0' as u32) as usize;
        let ghost next = digits.take(i - from + 1);
        assert(next.drop_last() =~= digits.take(i - from));
        assert(next.last() == c);
        if value > (usize::MAX - d) / 10 {
            proof {
                lemma_digits_value_grows(digits, i - from + 1);
            }
            return None;
        }
        value = value * 10 + d;
        i = i + 1;
    }
    assert(digits.take(to - from) =~= digits);
    Some(value)
}

/// Splits a frame into its opcode and its payload.
///
/// The payload starts at the first `{` or `[`. The call fails where there is
/// none, where it stands at the very start, and where what stands before it
/// is no unsigned decimal number within the machine word (a leading `+` is
/// accepted, as the standard integer parser accepts it).
pub fn decode(frame: &str) -> (r: Option<(usize, String)>)
    ensures
        match r {
            Some((opcode, payload)) => decoded(frame@) == Some((opcode, payload@)),
            None => decoded(frame@) is None,
        },
{
    let len = frame.unicode_len();
    let mut pos: usize = 0;
    while pos < len
        invariant
            pos <= len == frame@.len(),
            payload_start(frame@, 0) == payload_start(frame@, pos as int),
        ensures
            pos <= len == frame@.len(),
            payload_start(frame@, 0) == pos,
        decreases len - pos,
    {
        let c = frame.get_char(pos);
        if c == '{' || c == '[' {
            break;
        }
        pos = pos + 1;
    }
    if pos == 0 || pos >= len {
        return None;
    }
    let signed = frame.get_char(0) == '+';
    let from: usize = if signed { 1 } else { 0 };
    proof {
        let prefix = frame@.take(pos as int);
        if signed {
            assert(prefix.skip(1) =~= frame@.subrange(1, pos as int));
        } else {
            assert(prefix =~= frame@.subrange(0, pos as int));
        }
    }
    match parse_digits(frame, from, pos) {
        Some(opcode) => {
            let payload = frame.substring_char(pos, len).to_owned();
            assert(payload@ =~= frame@.skip(pos as int));
            Some((opcode, payload))
        },
        None => None,
    }
}

} // verus!
