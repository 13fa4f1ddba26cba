//! JSON text of the request bodies.
//!
//! The bodies are flat objects whose members are strings. This module
//! writes the object and says what a JSON string is; the string itself is
//! written by `serde_json`.

use crate::text::digit;
use vstd::pervasive::unreached;
use vstd::prelude::*;
use vstd::string::StringExecFns;

verus! {

/// `serde_json::Error`, the error of `serde_json::to_string`. Nothing is
/// claimed of its values.
#[verifier::external_type_specification]
#[verifier::external_body]
pub struct ExJsonError(serde_json::Error);

/// The lower-case hexadecimal digit `d`.
pub open spec fn hex_digit(d: nat) -> char
    recommends
        d < 16,
{
    if d < 10 {
        digit(d)
    } else if d == 10 {
        'a'
    } else if d == 11 {
        'b'
    } else if d == 12 {
        'c'
    } else if d == 13 {
        'd'
    } else if d == 14 {
        'e'
    } else {
        'f'
    }
}

/// Whether `c` stands for itself inside a JSON string: every character
/// but the double quote, the backslash and the control characters below
/// U+0020.
pub open spec fn plain(c: char) -> bool {
    c != '"' && c != '\\' && c as u32 >= 0x20
}

/// How `c` stands inside a JSON string. The double quote and the backslash
/// get a backslash in front; backspace, tab, line feed, form feed and
/// carriage return have their short escapes; any other control character
/// below U+0020 is written as `\u00` and two lower-case hexadecimal digits;
/// every other character stands for itself.
pub open spec fn escaped(c: char) -> Seq<char> {
    if c == '"' {
        seq!['\\', '"']
    } else if c == '\\' {
        seq!['\\', '\\']
    } else if c == '\u{8}' {
        seq!['\\', 'b']
    } else if c == '\t' {
        seq!['\\', 't']
    } else if c == '\n' {
        seq!['\\', 'n']
    } else if c == '\u{c}' {
        seq!['\\', 'f']
    } else if c == '\r' {
        seq!['\\', 'r']
    } else if (c as u32) < 0x20 {
        seq![
            '\\',
            'u',
            '0',
            '0',
            hex_digit((c as u32 / 16) as nat),
            hex_digit((c as u32 % 16) as nat),
        ]
    } else {
        seq![c]
    }
}

/// The characters of `text`, each as it stands inside a JSON string.
pub open spec fn escaped_text(text: Seq<char>) -> Seq<char>
    decreases text.len(),
{
    if text.len() == 0 {
        Seq::empty()
    } else {
        escaped(text[0]) + escaped_text(text.drop_first())
    }
}

/// The JSON string for `text`: a double quote, the escaped text, a double
/// quote.
pub open spec fn json_string(text: Seq<char>) -> Seq<char> {
    seq!['"'] + escaped_text(text) + seq!['"']
}

/// `serde_json::to_string`, called on a `str`.
///
/// Claimed and not proved: the call succeeds, and its result is the JSON
/// string of [`json_string`]. It succeeds because a `str` is written by
/// the serializer's `serialize_str` into a byte vector that grows as
/// needed, so that no step of it can report an error. The result is what
/// the compact formatter writes: the opening quote, the text with each
/// byte of the serializer's escape table replaced by its escape and every
/// other byte copied, and the closing quote. Every byte in that table is
/// below 0x80, so what holds of bytes holds of characters.
#[verifier::external_body]
fn to_json_string(text: &str) -> (written: Result<String, serde_json::Error>)
    ensures
        written is Ok,
        written matches Ok(quoted) ==> quoted@ == json_string(text@),
{
    serde_json::to_string(text)
}

/// The JSON string for `text`, as `serde_json` writes it.
pub fn quote(text: &str) -> (quoted: String)
    ensures
        quoted@ == json_string(text@),
{
    match to_json_string(text) {
        Ok(quoted) => quoted,
        Err(_) => unreached(),
    }
}

/// The object `{"username":..,"email":..,"password":..}` with the given
/// JSON values as its members.
pub open spec fn user_object(username: Seq<char>, email: Seq<char>, password: Seq<char>) -> Seq<
    char,
> {
    "{\"username\":"@ + username + ",\"email\":"@ + email + ",\"password\":"@ + password + "}"@
}

/// The object `{"username":..,"password":..}` with the given JSON values as
/// its members.
pub open spec fn credentials_object(username: Seq<char>, password: Seq<char>) -> Seq<char> {
    "{\"username\":"@ + username + ",\"password\":"@ + password + "}"@
}

/// Writes the user object around three JSON values, which are taken as
/// they are.
pub fn frame_user(username: &str, email: &str, password: &str) -> (object: String)
    ensures
        object@ == user_object(username@, email@, password@),
{
    String::from_str("{\"username\":").concat(username).concat(",\"email\":").concat(email).concat(
        ",\"password\":",
    ).concat(password).concat("}")
}

/// Writes the credentials object around two JSON values, which are taken
/// as they are.
pub fn frame_credentials(username: &str, password: &str) -> (object: String)
    ensures
        object@ == credentials_object(username@, password@),
{
    String::from_str("{\"username\":").concat(username).concat(",\"password\":").concat(
        password,
    ).concat("}")
}

/// A text without double quote, backslash and control characters is
/// written as it is, between double quotes.
pub proof fn plain_text_is_quoted_as_is(text: Seq<char>)
    requires
        forall|i: int| 0 <= i < text.len() ==> plain(#[trigger] text[i]),
    ensures
        json_string(text) == seq!['"'] + text + seq!['"'],
{
    lemma_plain_text(text);
}

proof fn lemma_plain_text(text: Seq<char>)
    requires
        forall|i: int| 0 <= i < text.len() ==> plain(#[trigger] text[i]),
    ensures
        escaped_text(text) == text,
    decreases text.len(),
{
    if text.len() == 0 {
        assert(escaped_text(text) =~= text);
    } else {
        let rest = text.drop_first();
        assert(plain(text[0]));
        assert forall|i: int| 0 <= i < rest.len() implies plain(#[trigger] rest[i]) by {
            assert(rest[i] == text[i + 1]);
        }
        lemma_plain_text(rest);
        assert(seq![text[0]] + rest =~= text);
    }
}

} // verus!
