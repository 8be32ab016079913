//! The wire format of the polishing request and response: JSON string
//! escaping, the request envelope, and extraction of the candidate text from
//! the remote service's reply.

use vstd::prelude::*;

use crate::text::chars_to_string;
use crate::text::str_chars;
use vstd::string::StringExecFns;

verus! {

/// The hexadecimal digit for a value below sixteen.
pub open spec fn hex_digit(n: int) -> char {
    if n == 0 {
        '0'
    } else if n == 1 {
        '1'
    } else if n == 2 {
        '2'
    } else if n == 3 {
        '3'
    } else if n == 4 {
        '4'
    } else if n == 5 {
        '5'
    } else if n == 6 {
        '6'
    } else if n == 7 {
        '7'
    } else if n == 8 {
        '8'
    } else if n == 9 {
        '9'
    } else if n == 10 {
        'a'
    } else if n == 11 {
        'b'
    } else if n == 12 {
        'c'
    } else if n == 13 {
        'd'
    } else if n == 14 {
        'e'
    } else {
        'f'
    }
}

/// How one character is written inside a JSON string literal: the two-letter
/// escapes of the JSON grammar, `\u00XX` for the remaining control
/// characters, and the character itself otherwise.
pub open spec fn escape_char(c: char) -> Seq<char> {
    if c == '"' {
        seq!['\\', '"']
    } else if c == '\\' {
        seq!['\\', '\\']
    } else if c == '\u{0008}' {
        seq!['\\', 'b']
    } else if c == '\u{000C}' {
        seq!['\\', 'f']
    } else if c == '\n' {
        seq!['\\', 'n']
    } else if c == '\r' {
        seq!['\\', 'r']
    } else if c == '\t' {
        seq!['\\', 't']
    } else if (c as u32) < 0x20 {
        seq!['\\', 'u', '0', '0', hex_digit((c as u32) as int / 16), hex_digit((c as u32) as int % 16)]
    } else {
        seq![c]
    }
}

/// A string written as the body of a JSON string literal, character by
/// character.
pub open spec fn escape_string(s: Seq<char>) -> Seq<char>
    decreases s.len(),
{
    if s.len() == 0 {
        Seq::<char>::empty()
    } else {
        escape_char(s[0]) + escape_string(s.drop_first())
    }
}

proof fn lemma_escape_string_singleton(c: char)
    ensures
        escape_string(seq![c]) == escape_char(c),
{
    let s = seq![c];
    assert(s.drop_first() =~= Seq::<char>::empty());
    assert(escape_string(Seq::<char>::empty()) == Seq::<char>::empty());
    assert(escape_string(s) == escape_char(c) + Seq::<char>::empty());
    assert(escape_char(c) + Seq::<char>::empty() =~= escape_char(c));
}

proof fn lemma_escape_string_append(a: Seq<char>, b: Seq<char>)
    ensures
        escape_string(a + b) == escape_string(a) + escape_string(b),
    decreases a.len(),
{
    if a.len() == 0 {
        assert(a + b =~= b);
        assert(escape_string(a) + escape_string(b) =~= escape_string(b));
    } else {
        assert((a + b).drop_first() =~= a.drop_first() + b);
        lemma_escape_string_append(a.drop_first(), b);
        assert(escape_string(a + b) =~= escape_string(a) + escape_string(b));
    }
}

fn hex_digit_char(n: u32) -> (c: char)
    requires
        n < 16,
    ensures
        c == hex_digit(n as int),
{
    match n {
        0 => '0',
        1 => '1',
        2 => '2',
        3 => '3',
        4 => '4',
        5 => '5',
        6 => '6',
        7 => '7',
        8 => '8',
        9 => '9',
        10 => 'a',
        11 => 'b',
        12 => 'c',
        13 => 'd',
        14 => 'e',
        _ => 'f',
    }
}

fn push_escaped(r: &mut Vec<char>, c: char)
    ensures
        final(r)@ == old(r)@ + escape_char(c),
{
    if c == '"' {
        r.push('\\');
        r.push('"');
    } else if c == '\\' {
        r.push('\\');
        r.push('\\');
    } else if c == '\u{0008}' {
        r.push('\\');
        r.push('b');
    } else if c == '\u{000C}' {
        r.push('\\');
        r.push('f');
    } else if c == '\n' {
        r.push('\\');
        r.push('n');
    } else if c == '\r' {
        r.push('\\');
        r.push('r');
    } else if c == '\t' {
        r.push('\\');
        r.push('t');
    } else if (c as u32) < 0x20 {
        let n = c as u32;
        r.push('\\');
        r.push('u');
        r.push('0');
        r.push('0');
        r.push(hex_digit_char(n / 16));
        r.push(hex_digit_char(n % 16));
    } else {
        r.push(c);
    }
    proof {
        assert(r@ =~= old(r)@ + escape_char(c));
    }
}

/// The characters of a string escaped for use inside a JSON string literal.
pub fn escape_chars(v: &Vec<char>) -> (r: Vec<char>)
    ensures
        r@ == escape_string(v@),
{
    let mut r: Vec<char> = Vec::new();
    let mut i: usize = 0;
    while i < v.len()
        invariant
            0 <= i <= v.len(),
            r@ == escape_string(v@.take(i as int)),
        decreases v.len() - i,
    {
        proof {
            assert(v@.take(i + 1).drop_last() =~= v@.take(i as int));
            assert(v@.take(i + 1) =~= v@.take(i as int) + seq![v@[i as int]]);
            lemma_escape_string_append(v@.take(i as int), seq![v@[i as int]]);
            lemma_escape_string_singleton(v@[i as int]);
        }
        push_escaped(&mut r, v[i]);
        i = i + 1;
    }
    proof {
        assert(v@.take(v@.len() as int) =~= v@);
    }
    r
}

/// The JSON envelope of a polishing request: one "contents" entry holding
/// the prompt as its single "part".
pub open spec fn request_body_spec(prompt: Seq<char>) -> Seq<char> {
    "{\"contents\":[{\"parts\":[{\"text\":\""@ + escape_string(prompt) + "\"}]}]}"@
}

/// The request body that carries the given prompt to the remote service.
pub fn build_request_body(prompt: &str) -> (r: String)
    ensures
        r@ == request_body_spec(prompt@),
{
    let v = str_chars(prompt);
    let e = escape_chars(&v);
    let mid = chars_to_string(&e);
    let head: String = "{\"contents\":[{\"parts\":[{\"text\":\"".to_owned();
    let r = head.concat(mid.as_str()).concat("\"}]}]}");
    proof {
        assert(r@ =~= request_body_spec(prompt@));
    }
    r
}

/// The text of the first candidate in a reply body, if the body parses as
/// JSON and holds one: the string at `candidates[0].content.parts[0].text`.
/// What it is on a given body only the parser decides.
pub uninterp spec fn candidate_text_of(body: Seq<char>) -> Option<Seq<char>>;

/// Relies on serde_json: `from_str` parses the body (a body that does not
/// parse is read as null), square-bracket indexing on `Value` returns the
/// nested element or null and never panics, and `as_str` returns the string
/// if the element is one. The extracted text depends on the body text alone.
#[verifier::external_body]
pub(crate) fn extract_candidate_text(body: &str) -> (r: Option<String>)
    ensures
        (r is Some) == (candidate_text_of(body@) is Some),
        r matches Some(s) ==> (candidate_text_of(body@) matches Some(t) && s@ == t),
{
    let v: serde_json::Value = serde_json::from_str(body).unwrap_or(serde_json::Value::Null);
    v["candidates"][0]["content"]["parts"][0]["text"].as_str().map(|s| s.to_owned())
}

} // verus!
