//! Framing of the outbound JSON bodies.
//!
//! The relay writes the bodies of its two outbound platform calls itself:
//! the send-message body, whose `content` field is itself a string-encoded
//! JSON text envelope, and the token-issuance body. Both are built from
//! string fields only, so the whole encoding reduces to JSON string
//! escaping, which is specified and verified character by character.

use vstd::prelude::*;
use vstd::string::{StringExecFns, StrSliceExecFns};

verus! {

/// The hexadecimal digit for a value below sixteen, lower case.
pub open spec fn spec_hex_digit(n: u32) -> char {
    if n == 0 {
        '0'
    } else if n == 1 {
        '1'
    } else if n == 2 {
        '2'
    } else if n == 3 {
        '3'
    } else if n == 4 {
        '4'
    } else if n == 5 {
        '5'
    } else if n == 6 {
        '6'
    } else if n == 7 {
        '7'
    } else if n == 8 {
        '8'
    } else if n == 9 {
        '9'
    } else if n == 10 {
        'a'
    } else if n == 11 {
        'b'
    } else if n == 12 {
        'c'
    } else if n == 13 {
        'd'
    } else if n == 14 {
        'e'
    } else {
        'f'
    }
}

/// How one character appears inside a JSON string literal: the quote and the
/// backslash take a backslash escape, the five named control characters take
/// their short escapes, every other control character takes the `\u00XX`
/// form, and everything else stands as itself.
pub open spec fn spec_escaped_char(c: char) -> Seq<char> {
    if c == '"' {
        seq!['\\', '"']
    } else if c == '\\' {
        seq!['\\', '\\']
    } else if c == '\u{08}' {
        seq!['\\', 'b']
    } else if c == '\u{09}' {
        seq!['\\', 't']
    } else if c == '\u{0A}' {
        seq!['\\', 'n']
    } else if c == '\u{0C}' {
        seq!['\\', 'f']
    } else if c == '\u{0D}' {
        seq!['\\', 'r']
    } else if (c as u32) < 0x20 {
        seq!['\\', 'u', '0', '0', spec_hex_digit((c as u32) / 16), spec_hex_digit((c as u32) % 16)]
    } else {
        seq![c]
    }
}

/// A character sequence escaped for the inside of a JSON string literal.
pub open spec fn spec_escaped(s: Seq<char>) -> Seq<char>
    decreases s.len(),
{
    if s.len() == 0 {
        Seq::empty()
    } else {
        spec_escaped_char(s[0]) + spec_escaped(s.drop_first())
    }
}

/// A JSON string literal: the escaped characters between double quotes.
pub open spec fn spec_quoted(s: Seq<char>) -> Seq<char> {
    seq!['"'] + spec_escaped(s) + seq!['"']
}

/// Escaping distributes over appending a character at the end.
proof fn lemma_escaped_push(s: Seq<char>, c: char)
    ensures
        spec_escaped(s.push(c)) == spec_escaped(s) + spec_escaped_char(c),
    decreases s.len(),
{
    if s.len() == 0 {
        assert(s.push(c).drop_first() =~= s);
        assert(spec_escaped(s.push(c)) =~= spec_escaped(s) + spec_escaped_char(c));
    } else {
        assert(s.push(c).drop_first() =~= s.drop_first().push(c));
        lemma_escaped_push(s.drop_first(), c);
        assert(spec_escaped(s.push(c)) =~= spec_escaped(s) + spec_escaped_char(c));
    }
}

/// Relies on `String::push`: appends exactly the one character.
#[verifier::external_body]
pub(crate) fn push_char(out: &mut String, c: char)
    ensures
        final(out)@ == old(out)@.push(c),
{
    out.push(c);
}

/// The hexadecimal digit for a value below sixteen, lower case.
fn hex_digit(n: u32) -> (c: char)
    requires
        n < 16,
    ensures
        c == spec_hex_digit(n),
{
    if n == 0 {
        '0'
    } else if n == 1 {
        '1'
    } else if n == 2 {
        '2'
    } else if n == 3 {
        '3'
    } else if n == 4 {
        '4'
    } else if n == 5 {
        '5'
    } else if n == 6 {
        '6'
    } else if n == 7 {
        '7'
    } else if n == 8 {
        '8'
    } else if n == 9 {
        '9'
    } else if n == 10 {
        'a'
    } else if n == 11 {
        'b'
    } else if n == 12 {
        'c'
    } else if n == 13 {
        'd'
    } else if n == 14 {
        'e'
    } else {
        'f'
    }
}

/// Appends the escaped form of one character.
fn push_escaped_char(out: &mut String, c: char)
    ensures
        final(out)@ == old(out)@ + spec_escaped_char(c),
{
    let code = c as u32;
    if c == '"' {
        push_char(out, '\\');
        push_char(out, '"');
    } else if c == '\\' {
        push_char(out, '\\');
        push_char(out, '\\');
    } else if c == '\u{08}' {
        push_char(out, '\\');
        push_char(out, 'b');
    } else if c == '\u{09}' {
        push_char(out, '\\');
        push_char(out, 't');
    } else if c == '\u{0A}' {
        push_char(out, '\\');
        push_char(out, 'n');
    } else if c == '\u{0C}' {
        push_char(out, '\\');
        push_char(out, 'f');
    } else if c == '\u{0D}' {
        push_char(out, '\\');
        push_char(out, 'r');
    } else if code < 0x20 {
        push_char(out, '\\');
        push_char(out, 'u');
        push_char(out, '0');
        push_char(out, '0');
        push_char(out, hex_digit(code / 16));
        push_char(out, hex_digit(code % 16));
    } else {
        push_char(out, c);
    }
    proof {
        assert(final(out)@ =~= old(out)@ + spec_escaped_char(c));
    }
}

/// The characters of `s` escaped for the inside of a JSON string literal.
pub fn json_escape(s: &str) -> (r: String)
    ensures
        r@ == spec_escaped(s@),
{
    let n = s.unicode_len();
    let mut out = String::new();
    let mut i: usize = 0;
    proof {
        assert(s@.take(0) =~= Seq::<char>::empty());
    }
    while i < n
        invariant
            n == s@.len(),
            i <= n,
            out@ == spec_escaped(s@.take(i as int)),
        decreases n - i,
    {
        let c = s.get_char(i);
        push_escaped_char(&mut out, c);
        proof {
            assert(s@.take(i as int).push(s@[i as int]) =~= s@.take(i as int + 1));
            lemma_escaped_push(s@.take(i as int), s@[i as int]);
        }
        i = i + 1;
    }
    proof {
        assert(s@.take(n as int) =~= s@);
    }
    out
}

/// A JSON string literal holding exactly the characters of `s`.
pub fn json_quote(s: &str) -> (r: String)
    ensures
        r@ == spec_quoted(s@),
{
    let mut out = String::new();
    push_char(&mut out, '"');
    let esc = json_escape(s);
    out.append(esc.as_str());
    push_char(&mut out, '"');
    proof {
        assert(out@ =~= spec_quoted(s@));
    }
    out
}

/// The platform's text-content envelope: the reply text as the `text` field
/// of a JSON object, itself to be carried as a string.
pub open spec fn spec_text_envelope(text: Seq<char>) -> Seq<char> {
    "{\"text\":"@ + spec_quoted(text) + "}"@
}

/// Encodes the text-content envelope for a reply.
pub fn text_envelope(text: &str) -> (r: String)
    ensures
        r@ == spec_text_envelope(text@),
{
    let mut out = String::from_str("{\"text\":");
    let q = json_quote(text);
    out.append(q.as_str());
    out.append("}");
    proof {
        assert(out@ =~= spec_text_envelope(text@));
    }
    out
}

/// The body of the platform's send-message call: the receiver's open-id, the
/// text message type, and the reply wrapped in the string-encoded text
/// envelope.
pub open spec fn spec_send_message_body(receive_id: Seq<char>, reply: Seq<char>) -> Seq<char> {
    "{\"receive_id\":"@ + spec_quoted(receive_id) + ",\"msg_type\":\"text\",\"content\":"@
        + spec_quoted(spec_text_envelope(reply)) + "}"@
}

/// Encodes the send-message body for a receiver and a reply.
pub fn send_message_body(receive_id: &str, reply: &str) -> (r: String)
    ensures
        r@ == spec_send_message_body(receive_id@, reply@),
{
    let mut out = String::from_str("{\"receive_id\":");
    let q1 = json_quote(receive_id);
    out.append(q1.as_str());
    out.append(",\"msg_type\":\"text\",\"content\":");
    let env = text_envelope(reply);
    let q2 = json_quote(env.as_str());
    out.append(q2.as_str());
    out.append("}");
    proof {
        assert(out@ =~= spec_send_message_body(receive_id@, reply@));
    }
    out
}

/// The body of the platform's token-issuance call: the application identity.
pub open spec fn spec_token_request_body(app_id: Seq<char>, app_secret: Seq<char>) -> Seq<char> {
    "{\"app_id\":"@ + spec_quoted(app_id) + ",\"app_secret\":"@ + spec_quoted(app_secret) + "}"@
}

/// Encodes the token-issuance body for an application identity.
pub fn token_request_body(app_id: &str, app_secret: &str) -> (r: String)
    ensures
        r@ == spec_token_request_body(app_id@, app_secret@),
{
    let mut out = String::from_str("{\"app_id\":");
    let q1 = json_quote(app_id);
    out.append(q1.as_str());
    out.append(",\"app_secret\":");
    let q2 = json_quote(app_secret);
    out.append(q2.as_str());
    out.append("}");
    proof {
        assert(out@ =~= spec_token_request_body(app_id@, app_secret@));
    }
    out
}

} // verus!
