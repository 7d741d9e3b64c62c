//! The JSON error envelope: `{"error":"<message>"}`.
//!
//! Error responses carry their display text inside a JSON object. The
//! message is embedded as a JSON string literal, so the characters that
//! JSON cannot carry raw — the quote, the backslash, and control bytes —
//! are escaped. All other bytes of the message's UTF-8 encoding pass
//! through unchanged, which keeps multi-byte characters intact.

use vstd::prelude::*;
use vstd::utf8::encode_utf8;
use vstd::utf8::is_ascii_chars;
use vstd::utf8::is_ascii_chars_encode_utf8;

verus! {

/// The byte standing for hex digit `n` (lower case), for `n < 16`.
pub open spec fn hex_digit(n: u8) -> u8 {
    if n < 10 {
        (0x30 + n) as u8
    } else {
        (0x57 + n) as u8
    }
}

/// A byte that may stand unescaped inside a JSON string literal: anything
/// but the quote, the backslash, and the control range.
pub open spec fn is_plain_byte(b: u8) -> bool {
    b >= 0x20 && b != 0x22 && b != 0x5c
}

/// How one byte of a message is embedded in a JSON string literal.
pub open spec fn escape_byte(b: u8) -> Seq<u8> {
    if b == 0x22 {  // " becomes \"
        seq![0x5cu8, 0x22u8]
    } else if b == 0x5c {  // \ becomes \\
        seq![0x5cu8, 0x5cu8]
    } else if b < 0x20 {  // control bytes become \u00XX
        seq![0x5cu8, 0x75u8, 0x30u8, 0x30u8, hex_digit(b / 16), hex_digit(b % 16)]
    } else {
        seq![b]
    }
}

/// The JSON string-literal embedding of a whole byte sequence.
pub open spec fn escape_bytes(s: Seq<u8>) -> Seq<u8>
    decreases s.len(),
{
    if s.len() == 0 {
        seq![]
    } else {
        escape_byte(s[0]) + escape_bytes(s.drop_first())
    }
}

/// The bytes of the JSON error envelope carrying the given message.
pub open spec fn error_body(msg: Seq<char>) -> Seq<u8> {
    encode_utf8("{\"error\":\""@) + escape_bytes(encode_utf8(msg)) + encode_utf8("\"}"@)
}

/// Escaping distributes over concatenation.
pub proof fn lemma_escape_bytes_concat(a: Seq<u8>, b: Seq<u8>)
    ensures
        escape_bytes(a + b) == escape_bytes(a) + escape_bytes(b),
    decreases a.len(),
{
    if a.len() == 0 {
        assert(a + b =~= b);
        assert(escape_bytes(a) + escape_bytes(b) =~= escape_bytes(b));
    } else {
        lemma_escape_bytes_concat(a.drop_first(), b);
        assert((a + b).drop_first() =~= a.drop_first() + b);
        assert(escape_bytes(a + b) =~= escape_byte(a[0]) + escape_bytes(a.drop_first() + b));
        assert(escape_byte(a[0]) + (escape_bytes(a.drop_first()) + escape_bytes(b)) =~= (
        escape_byte(a[0]) + escape_bytes(a.drop_first())) + escape_bytes(b));
    }
}

/// A sequence of plain bytes is embedded in a JSON string unchanged.
pub proof fn lemma_escape_bytes_plain(s: Seq<u8>)
    requires
        forall|i: int| 0 <= i < s.len() ==> is_plain_byte(s[i]),
    ensures
        escape_bytes(s) == s,
    decreases s.len(),
{
    if s.len() == 0 {
        assert(escape_bytes(s) =~= s);
    } else {
        lemma_escape_bytes_plain(s.drop_first());
        assert(escape_bytes(s) =~= seq![s[0]] + s.drop_first());
        assert(seq![s[0]] + s.drop_first() =~= s);
    }
}

/// UTF-8 encoding distributes over concatenation.
pub proof fn lemma_encode_utf8_concat(a: Seq<char>, b: Seq<char>)
    ensures
        encode_utf8(a + b) == encode_utf8(a) + encode_utf8(b),
    decreases a.len(),
{
    if a.len() == 0 {
        assert(a + b =~= b);
        assert(encode_utf8(a) + encode_utf8(b) =~= encode_utf8(b));
    } else {
        lemma_encode_utf8_concat(a.drop_first(), b);
        assert((a + b).drop_first() =~= a.drop_first() + b);
        assert(encode_utf8(a + b) =~= vstd::utf8::encode_scalar((a + b)[0] as u32) + encode_utf8(
            a.drop_first() + b,
        ));
        assert(vstd::utf8::encode_scalar(a[0] as u32) + (encode_utf8(a.drop_first())
            + encode_utf8(b)) =~= (vstd::utf8::encode_scalar(a[0] as u32) + encode_utf8(
            a.drop_first(),
        )) + encode_utf8(b));
    }
}

/// Law: for a message of plain ASCII characters — no quote, no backslash,
/// no control character — the error envelope is exactly the UTF-8 bytes of
/// the message spliced between `{"error":"` and `"}`, with nothing escaped.
pub proof fn lemma_error_body_plain(msg: Seq<char>)
    requires
        is_ascii_chars(msg),
        forall|i: int| 0 <= i < msg.len() ==> is_plain_byte(msg[i] as u8),
    ensures
        error_body(msg) == encode_utf8("{\"error\":\""@ + msg + "\"}"@),
{
    is_ascii_chars_encode_utf8(msg);
    assert(forall|i: int|
        0 <= i < encode_utf8(msg).len() ==> is_plain_byte(#[trigger] encode_utf8(msg)[i]));
    lemma_escape_bytes_plain(encode_utf8(msg));
    lemma_encode_utf8_concat("{\"error\":\""@ + msg, "\"}"@);
    lemma_encode_utf8_concat("{\"error\":\""@, msg);
    assert(("{\"error\":\""@ + msg) + "\"}"@ =~= "{\"error\":\""@ + msg + "\"}"@);
    assert((encode_utf8("{\"error\":\""@) + encode_utf8(msg)) + encode_utf8("\"}"@)
        =~= encode_utf8("{\"error\":\""@) + escape_bytes(encode_utf8(msg)) + encode_utf8("\"}"@));
}

proof fn lemma_escape_bytes_take_step(s: Seq<u8>, i: int)
    requires
        0 <= i < s.len(),
    ensures
        escape_bytes(s.take(i + 1)) == escape_bytes(s.take(i)) + escape_byte(s[i]),
{
    assert(s.take(i + 1) =~= s.take(i) + seq![s[i]]);
    lemma_escape_bytes_concat(s.take(i), seq![s[i]]);
    assert(seq![s[i]].drop_first() =~= Seq::<u8>::empty());
    assert(escape_bytes(seq![s[i]]) =~= escape_byte(s[i]) + escape_bytes(Seq::<u8>::empty()));
    assert(escape_byte(s[i]) + escape_bytes(Seq::<u8>::empty()) =~= escape_byte(s[i]));
}

/// Appends the JSON string-literal embedding of `raw` to `out`.
fn escape_into(out: &mut Vec<u8>, raw: &[u8])
    ensures
        final(out)@ == old(out)@ + escape_bytes(raw@),
{
    let ghost orig = out@;
    let mut i: usize = 0;
    while i < raw.len()
        invariant
            i <= raw@.len(),
            out@ == orig + escape_bytes(raw@.take(i as int)),
        decreases raw@.len() - i,
    {
        let b = raw[i];
        if b == 0x22 {
            out.push(0x5c);
            out.push(0x22);
        } else if b == 0x5c {
            out.push(0x5c);
            out.push(0x5c);
        } else if b < 0x20 {
            out.push(0x5c);
            out.push(0x75);
            out.push(0x30);
            out.push(0x30);
            let hi = b / 16;
            let lo = b % 16;
            out.push(if hi < 10 { 0x30 + hi } else { 0x57 + hi });
            out.push(if lo < 10 { 0x30 + lo } else { 0x57 + lo });
        } else {
            out.push(b);
        }
        proof {
            lemma_escape_bytes_take_step(raw@, i as int);
            assert(out@ =~= orig + escape_bytes(raw@.take(i as int + 1)));
        }
        i = i + 1;
    }
    proof {
        assert(raw@.take(raw@.len() as int) =~= raw@);
    }
}

/// Builds the JSON error envelope for the given message.
pub fn encode_error_body(msg: &str) -> (body: Vec<u8>)
    ensures
        body@ == error_body(msg@),
{
    let mut body = "{\"error\":\"".as_bytes_vec();
    escape_into(&mut body, msg.as_bytes());
    let mut closing = "\"}".as_bytes_vec();
    body.append(&mut closing);
    body
}

} // verus!
