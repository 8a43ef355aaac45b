//! The notes table and its JSON form.
//!
//! The read endpoint returns the whole table as a JSON array of
//! `{"note_id": ..., "note": ...}` objects, in store order. The spec
//! functions here say, character by character, what that array looks like;
//! [`notes_json`] produces it and is proved to match.

use vstd::prelude::*;

verus! {

/// One row of the notes table: a required identifier and an optional body.
pub struct Note {
    pub note_id: String,
    pub note: Option<String>,
}

/// The lowercase hexadecimal digit of a value below sixteen.
pub open spec fn hex_digit(n: int) -> char {
    if n == 0 {
        '0'
    } else if n == 1 {
        '1'
    } else if n == 2 {
        '2'
    } else if n == 3 {
        '3'
    } else if n == 4 {
        '4'
    } else if n == 5 {
        '5'
    } else if n == 6 {
        '6'
    } else if n == 7 {
        '7'
    } else if n == 8 {
        '8'
    } else if n == 9 {
        '9'
    } else if n == 10 {
        'a'
    } else if n == 11 {
        'b'
    } else if n == 12 {
        'c'
    } else if n == 13 {
        'd'
    } else if n == 14 {
        'e'
    } else {
        'f'
    }
}

/// How one character stands inside a JSON string literal: the quote, the
/// backslash and the control characters are escaped, the named control
/// characters by their short escapes and the rest as `\u00..` with lowercase
/// hexadecimal digits; every other character stands as itself.
pub open spec fn escape_char(c: char) -> Seq<char> {
    if c == '"' {
        seq!['\\', '"']
    } else if c == '\\' {
        seq!['\\', '\\']
    } else if c == '\u{8}' {
        seq!['\\', 'b']
    } else if c == '\t' {
        seq!['\\', 't']
    } else if c == '\n' {
        seq!['\\', 'n']
    } else if c == '\u{c}' {
        seq!['\\', 'f']
    } else if c == '\r' {
        seq!['\\', 'r']
    } else if (c as u32) < 32 {
        seq!['\\', 'u', '0', '0', hex_digit((c as u32) as int / 16), hex_digit((c as u32) as int % 16)]
    } else {
        seq![c]
    }
}

/// The body of a JSON string literal: each character escaped in turn.
pub open spec fn escape_str(s: Seq<char>) -> Seq<char>
    decreases s.len(),
{
    if s.len() == 0 {
        Seq::empty()
    } else {
        escape_str(s.drop_last()) + escape_char(s.last())
    }
}

/// A JSON string literal: the escaped text between double quotes.
pub open spec fn json_string(s: Seq<char>) -> Seq<char> {
    seq!['"'] + escape_str(s) + seq!['"']
}

/// The opening of a note object, through the colon after its first key.
pub open spec fn note_id_key() -> Seq<char> {
    seq!['{', '"', 'n', 'o', 't', 'e', '_', 'i', 'd', '"', ':']
}

/// The separator and second key of a note object, through its colon.
pub open spec fn note_key() -> Seq<char> {
    seq![',', '"', 'n', 'o', 't', 'e', '"', ':']
}

/// The JSON `null` literal.
pub open spec fn null_lit() -> Seq<char> {
    seq!['n', 'u', 'l', 'l']
}

/// One note as a JSON object: `{"note_id":<id>,"note":<body or null>}`.
pub open spec fn json_note(n: Note) -> Seq<char> {
    note_id_key() + json_string(n.note_id@) + note_key() + (match n.note {
        Some(s) => json_string(s@),
        None => null_lit(),
    }) + seq!['}']
}

/// The notes between the brackets of the array: the objects in store order,
/// separated by commas.
pub open spec fn json_notes_body(ns: Seq<Note>) -> Seq<char>
    decreases ns.len(),
{
    if ns.len() == 0 {
        Seq::empty()
    } else if ns.len() == 1 {
        json_note(ns[0])
    } else {
        json_notes_body(ns.drop_last()) + seq![','] + json_note(ns.last())
    }
}

/// The whole result set as a JSON array, in store order.
pub open spec fn json_notes(ns: Seq<Note>) -> Seq<char> {
    seq!['['] + json_notes_body(ns) + seq![']']
}

/// Relies on String's FromIterator<char> impl: collecting characters yields
/// the string of exactly those characters in order.
#[verifier::external_body]
fn chars_to_string(v: &Vec<char>) -> (r: String)
    ensures
        r@ == v@,
{
    v.iter().collect()
}

/// The lowercase hexadecimal digit of a value below sixteen.
fn hex_digit_char(n: u32) -> (c: char)
    requires
        n < 16,
    ensures
        c == hex_digit(n as int),
{
    if n == 0 {
        '0'
    } else if n == 1 {
        '1'
    } else if n == 2 {
        '2'
    } else if n == 3 {
        '3'
    } else if n == 4 {
        '4'
    } else if n == 5 {
        '5'
    } else if n == 6 {
        '6'
    } else if n == 7 {
        '7'
    } else if n == 8 {
        '8'
    } else if n == 9 {
        '9'
    } else if n == 10 {
        'a'
    } else if n == 11 {
        'b'
    } else if n == 12 {
        'c'
    } else if n == 13 {
        'd'
    } else if n == 14 {
        'e'
    } else {
        'f'
    }
}

/// Appends one character of a string body, escaped as JSON asks.
fn push_escaped(out: &mut Vec<char>, c: char)
    ensures
        final(out)@ == old(out)@ + escape_char(c),
{
    if c == '"' {
        out.push('\\');
        out.push('"');
    } else if c == '\\' {
        out.push('\\');
        out.push('\\');
    } else if c == '\u{8}' {
        out.push('\\');
        out.push('b');
    } else if c == '\t' {
        out.push('\\');
        out.push('t');
    } else if c == '\n' {
        out.push('\\');
        out.push('n');
    } else if c == '\u{c}' {
        out.push('\\');
        out.push('f');
    } else if c == '\r' {
        out.push('\\');
        out.push('r');
    } else {
        let n = c as u32;
        if n < 32 {
            out.push('\\');
            out.push('u');
            out.push('0');
            out.push('0');
            out.push(hex_digit_char(n / 16));
            out.push(hex_digit_char(n % 16));
        } else {
            out.push(c);
        }
    }
    assert(out@ =~= old(out)@ + escape_char(c));
}

/// Appends a JSON string literal holding the given text.
fn push_json_string(out: &mut Vec<char>, s: &str)
    ensures
        final(out)@ == old(out)@ + json_string(s@),
{
    out.push('"');
    let n = s.unicode_len();
    let mut i: usize = 0;
    while i < n
        invariant
            n == s@.len(),
            i <= n,
            out@ == old(out)@ + seq!['"'] + escape_str(s@.subrange(0, i as int)),
        decreases n - i,
    {
        let c = s.get_char(i);
        push_escaped(out, c);
        proof {
            let pre = s@.subrange(0, i + 1);
            assert(pre.drop_last() =~= s@.subrange(0, i as int));
            assert(pre.last() == c);
            assert(out@ =~= old(out)@ + seq!['"'] + escape_str(pre));
        }
        i += 1;
    }
    out.push('"');
    proof {
        assert(s@.subrange(0, n as int) =~= s@);
        assert(out@ =~= old(out)@ + json_string(s@));
    }
}

/// Appends one note as a JSON object.
fn push_json_note(out: &mut Vec<char>, n: &Note)
    ensures
        final(out)@ == old(out)@ + json_note(*n),
{
    out.push('{');
    out.push('"');
    out.push('n');
    out.push('o');
    out.push('t');
    out.push('e');
    out.push('_');
    out.push('i');
    out.push('d');
    out.push('"');
    out.push(':');
    assert(out@ =~= old(out)@ + note_id_key());
    push_json_string(out, n.note_id.as_str());
    out.push(',');
    out.push('"');
    out.push('n');
    out.push('o');
    out.push('t');
    out.push('e');
    out.push('"');
    out.push(':');
    assert(out@ =~= old(out)@ + note_id_key() + json_string(n.note_id@) + note_key());
    match &n.note {
        Some(s) => {
            push_json_string(out, s.as_str());
        },
        None => {
            out.push('n');
            out.push('u');
            out.push('l');
            out.push('l');
        },
    }
    out.push('}');
    assert(out@ =~= old(out)@ + json_note(*n));
}

/// The whole result set rendered as a JSON array, in store order: exactly
/// the text that `json_notes` describes.
pub fn notes_json(notes: &Vec<Note>) -> (r: String)
    ensures
        r@ == json_notes(notes@),
{
    let mut out: Vec<char> = Vec::new();
    out.push('[');
    let mut i: usize = 0;
    while i < notes.len()
        invariant
            i <= notes@.len(),
            out@ == seq!['['] + json_notes_body(notes@.subrange(0, i as int)),
        decreases notes@.len() - i,
    {
        if i > 0 {
            out.push(',');
        }
        push_json_note(&mut out, &notes[i]);
        proof {
            let pre = notes@.subrange(0, i + 1);
            assert(pre.drop_last() =~= notes@.subrange(0, i as int));
            assert(pre.last() == notes@[i as int]);
            assert(out@ =~= seq!['['] + json_notes_body(pre));
        }
        i += 1;
    }
    out.push(']');
    proof {
        assert(notes@.subrange(0, notes@.len() as int) =~= notes@);
        assert(out@ =~= json_notes(notes@));
    }
    chars_to_string(&out)
}

} // verus!
