//! The templates that the library renders: literal text and placeholders.
//!
//! A plain template is text in which every `{{` opens a placeholder: the two
//! braces, a key between optional blanks, and `}}`. A key is made of letters,
//! digits, `-`, `_`, `$` and characters beyond ASCII, and is none of the
//! words that the engine reads as something else than a key. Nothing else is
//! a template here: no block, no partial, no comment, no helper call, no
//! escape by backslash. The grammar is stated on the bytes of the text.

use vstd::prelude::*;
use vstd::slice::*;
use vstd::string::{StringExecFns, StringSliceAdditionalSpecFns};
use vstd::utf8::encode_utf8;

verus! {

/// `{`
pub const OPEN: u8 = 0x7b;

/// `}`
pub const CLOSE: u8 = 0x7d;

/// `\`
pub const BACKSLASH: u8 = 0x5c;

/// The blanks that may stand between the braces and the key: space, tab,
/// line feed and carriage return.
pub open spec fn is_blank(byte: u8) -> bool {
    byte == 0x20 || byte == 0x09 || byte == 0x0a || byte == 0x0d
}

/// The bytes a key is made of: ASCII letters and digits, `-`, `_`, `$`, and
/// every byte of a character beyond ASCII.
pub open spec fn is_key_byte(byte: u8) -> bool {
    ||| 0x30 <= byte <= 0x39
    ||| 0x41 <= byte <= 0x5a
    ||| 0x61 <= byte <= 0x7a
    ||| byte == 0x2d
    ||| byte == 0x5f
    ||| byte == 0x24
    ||| byte >= 0x80
}

/// Whether `key` is a word that the engine does not look up in the data: the
/// name of one of its built-in helpers, `this` or `else`.
pub open spec fn is_reserved(key: Seq<u8>) -> bool {
    ||| key == "if".spec_bytes()
    ||| key == "unless".spec_bytes()
    ||| key == "each".spec_bytes()
    ||| key == "with".spec_bytes()
    ||| key == "lookup".spec_bytes()
    ||| key == "raw".spec_bytes()
    ||| key == "log".spec_bytes()
    ||| key == "eq".spec_bytes()
    ||| key == "ne".spec_bytes()
    ||| key == "gt".spec_bytes()
    ||| key == "gte".spec_bytes()
    ||| key == "lt".spec_bytes()
    ||| key == "lte".spec_bytes()
    ||| key == "and".spec_bytes()
    ||| key == "or".spec_bytes()
    ||| key == "not".spec_bytes()
    ||| key == "this".spec_bytes()
    ||| key == "else".spec_bytes()
}

/// The end of the run of blanks that begins at `from`.
pub open spec fn blanks_end(text: Seq<u8>, from: int) -> int
    decreases text.len() - from,
{
    if 0 <= from < text.len() && is_blank(text[from]) {
        blanks_end(text, from + 1)
    } else {
        from
    }
}

/// The end of the run of key bytes that begins at `from`.
pub open spec fn key_end(text: Seq<u8>, from: int) -> int
    decreases text.len() - from,
{
    if 0 <= from < text.len() && is_key_byte(text[from]) {
        key_end(text, from + 1)
    } else {
        from
    }
}

/// Whether `{{` stands at `at`.
pub open spec fn opens_at(text: Seq<u8>, at: int) -> bool {
    0 <= at && at + 1 < text.len() && text[at] == OPEN && text[at + 1] == OPEN
}

/// Whether `}}` stands at `at`.
pub open spec fn closes_at(text: Seq<u8>, at: int) -> bool {
    0 <= at && at + 1 < text.len() && text[at] == CLOSE && text[at + 1] == CLOSE
}

/// A placeholder found in a text: its key and where the text goes on.
pub struct Placeholder {
    pub key: Seq<u8>,
    pub end: int,
}

/// Why a `{{` opens no placeholder.
#[derive(Clone, Copy, Debug, PartialEq, Eq, Structural)]
pub enum Flaw {
    /// A backslash stands before the `{{`.
    Escaped,
    /// What follows the `{{` and its blanks is no key.
    NoKey,
    /// Something else than `}}` follows the key and its blanks.
    Unclosed,
    /// The key is a word that the engine does not look up in the data.
    ReservedKey,
}

impl Flaw {
    /// The reason that a template with this flaw is refused with.
    pub open spec fn reason_text(self) -> Seq<char> {
        match self {
            Flaw::Escaped => "a backslash before {{ is not supported."@,
            Flaw::NoKey => "{{ must be followed by the key of a placeholder."@,
            Flaw::Unclosed => "the key of a placeholder must be followed by }}."@,
            Flaw::ReservedKey =>
                "the key of a placeholder is a word that the template engine reserves."@,
        }
    }

    /// The reason that a template with this flaw is refused with.
    pub fn reason(self) -> (text: String)
        ensures
            text@ == self.reason_text(),
    {
        match self {
            Flaw::Escaped => String::from_str("a backslash before {{ is not supported."),
            Flaw::NoKey => String::from_str("{{ must be followed by the key of a placeholder."),
            Flaw::Unclosed => String::from_str("the key of a placeholder must be followed by }}."),
            Flaw::ReservedKey => String::from_str(
                "the key of a placeholder is a word that the template engine reserves.",
            ),
        }
    }
}

/// The placeholder that the `{{` at `at` opens, or the flaw of what it
/// opens.
pub open spec fn placeholder_at(text: Seq<u8>, at: int) -> Result<Placeholder, Flaw> {
    let key_from = blanks_end(text, at + 2);
    let key_to = key_end(text, key_from);
    let close = blanks_end(text, key_to);
    let key = text.subrange(key_from, key_to);
    if at > 0 && text[at - 1] == BACKSLASH {
        Err(Flaw::Escaped)
    } else if key_from >= key_to {
        Err(Flaw::NoKey)
    } else if !closes_at(text, close) {
        Err(Flaw::Unclosed)
    } else if is_reserved(key) {
        Err(Flaw::ReservedKey)
    } else {
        Ok(Placeholder { key, end: close + 2 })
    }
}

/// The keys of the placeholders of `text` from `from` on, in their order, or
/// the flaw of the first `{{` from there on that opens no placeholder.
pub open spec fn keys_from(text: Seq<u8>, from: int) -> Result<Seq<Seq<u8>>, Flaw>
    decreases text.len() - from,
    via keys_from_goes_on
{
    if from < 0 || from >= text.len() {
        Ok(Seq::empty())
    } else if opens_at(text, from) {
        match placeholder_at(text, from) {
            Ok(found) => match keys_from(text, found.end) {
                Ok(rest) => Ok(seq![found.key] + rest),
                Err(flaw) => Err(flaw),
            },
            Err(flaw) => Err(flaw),
        }
    } else {
        keys_from(text, from + 1)
    }
}

/// A run of blanks ends at or behind its beginning.
proof fn blanks_end_is_behind(text: Seq<u8>, from: int)
    ensures
        from <= blanks_end(text, from),
    decreases text.len() - from,
{
    if 0 <= from < text.len() && is_blank(text[from]) {
        blanks_end_is_behind(text, from + 1);
    }
}

/// A run of key bytes ends at or behind its beginning.
proof fn key_end_is_behind(text: Seq<u8>, from: int)
    ensures
        from <= key_end(text, from),
    decreases text.len() - from,
{
    if 0 <= from < text.len() && is_key_byte(text[from]) {
        key_end_is_behind(text, from + 1);
    }
}

/// A placeholder ends behind its beginning, so that the search for keys
/// goes on behind it.
#[via_fn]
proof fn keys_from_goes_on(text: Seq<u8>, from: int) {
    let key_from = blanks_end(text, from + 2);
    let key_to = key_end(text, key_from);
    blanks_end_is_behind(text, from + 2);
    key_end_is_behind(text, key_from);
    blanks_end_is_behind(text, key_to);
}

/// The first flaw of `source`, or `None` where it is a plain template.
pub open spec fn first_flaw(source: Seq<char>) -> Option<Flaw> {
    match keys_from(encode_utf8(source), 0) {
        Ok(_) => None,
        Err(flaw) => Some(flaw),
    }
}

/// Whether `source` is a plain template.
pub open spec fn is_plain_text(source: Seq<char>) -> bool {
    first_flaw(source) is None
}

/// Whether `source` is a plain template with a placeholder for `key`.
pub open spec fn mentions(source: Seq<char>, key: Seq<char>) -> bool {
    match keys_from(encode_utf8(source), 0) {
        Ok(keys) => keys.contains(encode_utf8(key)),
        Err(_) => false,
    }
}

fn blank(byte: u8) -> (yes: bool)
    ensures
        yes == is_blank(byte),
{
    byte == 0x20 || byte == 0x09 || byte == 0x0a || byte == 0x0d
}

fn key_byte(byte: u8) -> (yes: bool)
    ensures
        yes == is_key_byte(byte),
{
    (0x30 <= byte && byte <= 0x39) || (0x41 <= byte && byte <= 0x5a) || (0x61 <= byte && byte
        <= 0x7a) || byte == 0x2d || byte == 0x5f || byte == 0x24 || byte >= 0x80
}

fn skip_blanks(text: &[u8], from: usize) -> (end: usize)
    requires
        from <= text@.len(),
    ensures
        end == blanks_end(text@, from as int),
        from <= end <= text@.len(),
{
    let mut at: usize = from;
    while at < text.len() && blank(text[at])
        invariant
            from <= at <= text@.len(),
            blanks_end(text@, from as int) == blanks_end(text@, at as int),
        decreases text@.len() - at,
    {
        at += 1;
    }
    at
}

fn skip_key(text: &[u8], from: usize) -> (end: usize)
    requires
        from <= text@.len(),
    ensures
        end == key_end(text@, from as int),
        from <= end <= text@.len(),
{
    let mut at: usize = from;
    while at < text.len() && key_byte(text[at])
        invariant
            from <= at <= text@.len(),
            key_end(text@, from as int) == key_end(text@, at as int),
        decreases text@.len() - at,
    {
        at += 1;
    }
    at
}

/// Whether the bytes of `text` between `from` and `to` spell `word`.
fn spells(text: &[u8], from: usize, to: usize, word: &str) -> (yes: bool)
    requires
        from <= to <= text@.len(),
    ensures
        yes == (text@.subrange(from as int, to as int) == word.spec_bytes()),
{
    let letters = word.as_bytes();
    if letters.len() != to - from {
        return false;
    }
    let mut k: usize = 0;
    while k < letters.len()
        invariant
            from <= to <= text@.len(),
            letters@ == word.spec_bytes(),
            letters@.len() == to - from,
            k <= letters@.len(),
            forall|j: int| 0 <= j < k ==> text@[from + j] == letters@[j],
        decreases letters@.len() - k,
    {
        if text[from + k] != letters[k] {
            assert(text@.subrange(from as int, to as int)[k as int] != letters@[k as int]);
            return false;
        }
        k += 1;
    }
    assert(text@.subrange(from as int, to as int) =~= letters@);
    true
}

fn reserved(text: &[u8], from: usize, to: usize) -> (yes: bool)
    requires
        from <= to <= text@.len(),
    ensures
        yes == is_reserved(text@.subrange(from as int, to as int)),
{
    spells(text, from, to, "if") || spells(text, from, to, "unless") || spells(
        text,
        from,
        to,
        "each",
    ) || spells(text, from, to, "with") || spells(text, from, to, "lookup") || spells(
        text,
        from,
        to,
        "raw",
    ) || spells(text, from, to, "log") || spells(text, from, to, "eq") || spells(
        text,
        from,
        to,
        "ne",
    ) || spells(text, from, to, "gt") || spells(text, from, to, "gte") || spells(
        text,
        from,
        to,
        "lt",
    ) || spells(text, from, to, "lte") || spells(text, from, to, "and") || spells(
        text,
        from,
        to,
        "or",
    ) || spells(text, from, to, "not") || spells(text, from, to, "this") || spells(
        text,
        from,
        to,
        "else",
    )
}

/// Where the text goes on after the placeholder that the `{{` at `at` opens,
/// or the flaw of what it opens.
fn placeholder_end(text: &[u8], at: usize) -> (end: Result<usize, Flaw>)
    requires
        opens_at(text@, at as int),
    ensures
        match placeholder_at(text@, at as int) {
            Ok(found) => end == Ok::<usize, Flaw>(found.end as usize) && at < found.end
                <= text@.len(),
            Err(flaw) => end == Err::<usize, Flaw>(flaw),
        },
{
    if at > 0 && text[at - 1] == BACKSLASH {
        return Err(Flaw::Escaped);
    }
    let key_from = skip_blanks(text, at + 2);
    let key_to = skip_key(text, key_from);
    let close = skip_blanks(text, key_to);
    if key_from >= key_to {
        Err(Flaw::NoKey)
    } else if !(close < text.len() && text.len() - close >= 2 && text[close] == CLOSE && text[close
        + 1] == CLOSE) {
        Err(Flaw::Unclosed)
    } else if reserved(text, key_from, key_to) {
        Err(Flaw::ReservedKey)
    } else {
        Ok(close + 2)
    }
}

/// Looks for the first `{{` of `source` that opens no placeholder.
pub fn find_flaw(source: &str) -> (flaw: Option<Flaw>)
    ensures
        flaw == first_flaw(source@),
{
    let text = source.as_bytes();
    let mut at: usize = 0;
    while at < text.len()
        invariant
            at <= text@.len(),
            text@ == encode_utf8(source@),
            first_flaw(source@) == match keys_from(text@, at as int) {
                Ok(_) => None::<Flaw>,
                Err(flaw) => Some(flaw),
            },
        decreases text@.len() - at,
    {
        if text[at] == OPEN && text.len() - at >= 2 && text[at + 1] == OPEN {
            match placeholder_end(text, at) {
                Ok(end) => {
                    at = end;
                },
                Err(flaw) => {
                    return Some(flaw);
                },
            }
        } else {
            at += 1;
        }
    }
    None
}

/// Whether `source` is a plain template: text in which every `{{` opens a
/// placeholder for a key.
pub fn is_plain(source: &str) -> (plain: bool)
    ensures
        plain == is_plain_text(source@),
{
    find_flaw(source).is_none()
}

} // verus!
