//! The wire form of the login POST body.
//!
//! The endpoint takes a JSON object with the six fields of a
//! [`LoginRequest`](crate::login::LoginRequest), in declaration order. The
//! body is built here as UTF-8 bytes, with JSON string escaping: the quote
//! and the backslash are escaped, control characters get their named
//! escapes or the four-digit hexadecimal form, and every other byte of the
//! text passes through unchanged.

use vstd::prelude::*;
use vstd::utf8::encode_utf8;
use crate::login::{LoginRequest, LoginRequestView};

verus! {

/// The ASCII digit of one hexadecimal place (lower case).
pub open spec fn spec_hex_digit(d: u8) -> u8
    recommends
        d < 16,
{
    if d < 10 {
        (0x30 + d) as u8
    } else {
        (0x57 + d) as u8
    }
}

fn hex_digit(d: u8) -> (r: u8)
    requires
        d < 16,
    ensures
        r == spec_hex_digit(d),
{
    if d < 10 {
        0x30 + d
    } else {
        0x57 + d
    }
}

/// How one byte of a string appears inside a JSON string literal.
pub open spec fn json_escape_byte(b: u8) -> Seq<u8> {
    if b == 0x22 {  // quote
        seq![0x5cu8, 0x22u8]
    } else if b == 0x5c {  // backslash
        seq![0x5cu8, 0x5cu8]
    } else if b == 0x08 {
        seq![0x5cu8, 0x62u8]  // \b
    } else if b == 0x09 {
        seq![0x5cu8, 0x74u8]  // \t
    } else if b == 0x0a {
        seq![0x5cu8, 0x6eu8]  // \n
    } else if b == 0x0c {
        seq![0x5cu8, 0x66u8]  // \f
    } else if b == 0x0d {
        seq![0x5cu8, 0x72u8]  // \r
    } else if b < 0x20 {
        seq![0x5cu8, 0x75u8, 0x30u8, 0x30u8, spec_hex_digit(b >> 4), spec_hex_digit(b & 0x0f)]
    } else {
        seq![b]
    }
}

/// A whole string's bytes inside a JSON string literal.
pub open spec fn json_escape_bytes(bytes: Seq<u8>) -> Seq<u8>
    decreases bytes.len(),
{
    if bytes.len() == 0 {
        Seq::<u8>::empty()
    } else {
        json_escape_byte(bytes[0]) + json_escape_bytes(bytes.skip(1))
    }
}

/// Escaping distributes over concatenation.
proof fn lemma_json_escape_bytes_concat(a: Seq<u8>, b: Seq<u8>)
    ensures
        json_escape_bytes(a + b) == json_escape_bytes(a) + json_escape_bytes(b),
    decreases a.len(),
{
    if a.len() == 0 {
        assert(a + b =~= b);
        assert(json_escape_bytes(a) =~= Seq::<u8>::empty());
        assert(json_escape_bytes(a) + json_escape_bytes(b) =~= json_escape_bytes(b));
    } else {
        assert((a + b).skip(1) =~= a.skip(1) + b);
        lemma_json_escape_bytes_concat(a.skip(1), b);
        assert(json_escape_bytes(a + b) =~= json_escape_bytes(a) + json_escape_bytes(b));
    }
}

/// Escaping one byte alone gives that byte's escape.
proof fn lemma_json_escape_bytes_singleton(b: u8)
    ensures
        json_escape_bytes(seq![b]) == json_escape_byte(b),
{
    let s = seq![b];
    assert(s[0] == b);
    assert(s.skip(1) =~= Seq::<u8>::empty());
    assert(json_escape_bytes(Seq::<u8>::empty()) == Seq::<u8>::empty());
    assert(json_escape_bytes(s) == json_escape_byte(b) + Seq::<u8>::empty());
    assert(json_escape_byte(b) + Seq::<u8>::empty() =~= json_escape_byte(b));
}

/// A JSON string literal: the escaped text between quotes.
pub open spec fn spec_json_string(s: Seq<char>) -> Seq<u8> {
    seq![0x22u8] + json_escape_bytes(encode_utf8(s)) + seq![0x22u8]
}

/// A JSON boolean.
pub open spec fn spec_json_bool(b: bool) -> Seq<u8> {
    if b {
        encode_utf8("true"@)
    } else {
        encode_utf8("false"@)
    }
}

/// An optional JSON string: `null` where there is none.
pub open spec fn spec_json_opt_string(s: Option<Seq<char>>) -> Seq<u8> {
    match s {
        Option::None => encode_utf8("null"@),
        Option::Some(t) => spec_json_string(t),
    }
}

/// The exact UTF-8 JSON text of one login POST body.
pub open spec fn spec_request_body(r: LoginRequestView) -> Seq<u8> {
    encode_utf8("{\"email\":"@) + spec_json_string(r.email) + encode_utf8(",\"password\":"@)
        + spec_json_string(r.password) + encode_utf8(",\"undelete\":"@) + spec_json_bool(
        r.undelete,
    ) + encode_utf8(",\"captcha_key\":"@) + spec_json_opt_string(r.captcha_key) + encode_utf8(
        ",\"login_source\":"@,
    ) + spec_json_opt_string(r.login_source) + encode_utf8(",\"gift_code_sku_id\":"@)
        + spec_json_opt_string(r.gift_code_sku_id) + encode_utf8("}"@)
}

/// Appends a literal piece of the body.
fn push_str_bytes(out: &mut Vec<u8>, s: &str)
    ensures
        final(out)@ == old(out)@ + encode_utf8(s@),
{
    out.extend_from_slice(s.as_bytes());
}

/// Appends the escaped bytes of one string's text.
fn push_escaped(out: &mut Vec<u8>, s: &str)
    ensures
        final(out)@ == old(out)@ + json_escape_bytes(encode_utf8(s@)),
{
    let bytes: &[u8] = s.as_bytes();
    let mut i: usize = 0;
    while i < bytes.len()
        invariant
            i <= bytes@.len(),
            out@ == old(out)@ + json_escape_bytes(bytes@.take(i as int)),
        decreases bytes@.len() - i,
    {
        let b = bytes[i];
        if b == 0x22 {
            out.push(0x5c);
            out.push(0x22);
        } else if b == 0x5c {
            out.push(0x5c);
            out.push(0x5c);
        } else if b == 0x08 {
            out.push(0x5c);
            out.push(0x62);
        } else if b == 0x09 {
            out.push(0x5c);
            out.push(0x74);
        } else if b == 0x0a {
            out.push(0x5c);
            out.push(0x6e);
        } else if b == 0x0c {
            out.push(0x5c);
            out.push(0x66);
        } else if b == 0x0d {
            out.push(0x5c);
            out.push(0x72);
        } else if b < 0x20 {
            proof {
                assert(b >> 4 < 16 && b & 0x0f < 16) by (bit_vector);
            }
            out.push(0x5c);
            out.push(0x75);
            out.push(0x30);
            out.push(0x30);
            let hi = hex_digit(b >> 4);
            out.push(hi);
            let lo = hex_digit(b & 0x0f);
            out.push(lo);
        } else {
            out.push(b);
        }
        proof {
            assert(bytes@.take(i + 1) =~= bytes@.take(i as int) + seq![bytes@[i as int]]);
            lemma_json_escape_bytes_concat(bytes@.take(i as int), seq![bytes@[i as int]]);
            lemma_json_escape_bytes_singleton(bytes@[i as int]);
        }
        i += 1;
    }
    proof {
        assert(bytes@.take(bytes@.len() as int) =~= bytes@);
    }
}

/// Appends one JSON string literal.
fn push_json_string(out: &mut Vec<u8>, s: &str)
    ensures
        final(out)@ == old(out)@ + spec_json_string(s@),
{
    out.push(0x22);
    push_escaped(out, s);
    out.push(0x22);
    proof {
        assert(out@ =~= old(out)@ + spec_json_string(s@));
    }
}

/// Appends one optional JSON string.
fn push_json_opt_string(out: &mut Vec<u8>, s: &Option<String>)
    ensures
        final(out)@ == old(out)@ + spec_json_opt_string(crate::login::opt_string_view(*s)),
{
    match s {
        Option::None => push_str_bytes(out, "null"),
        Option::Some(t) => push_json_string(out, t.as_str()),
    }
}

/// The login POST body for one request: exactly the JSON text that
/// [`spec_request_body`] states, ready to be sent as UTF-8 bytes.
pub fn request_body(request: &LoginRequest) -> (body: Vec<u8>)
    ensures
        body@ == spec_request_body(request@),
{
    let mut out: Vec<u8> = Vec::new();
    push_str_bytes(&mut out, "{\"email\":");
    push_json_string(&mut out, request.email.as_str());
    push_str_bytes(&mut out, ",\"password\":");
    push_json_string(&mut out, request.password.as_str());
    push_str_bytes(&mut out, ",\"undelete\":");
    if request.undelete {
        push_str_bytes(&mut out, "true");
    } else {
        push_str_bytes(&mut out, "false");
    }
    push_str_bytes(&mut out, ",\"captcha_key\":");
    push_json_opt_string(&mut out, &request.captcha_key);
    push_str_bytes(&mut out, ",\"login_source\":");
    push_json_opt_string(&mut out, &request.login_source);
    push_str_bytes(&mut out, ",\"gift_code_sku_id\":");
    push_json_opt_string(&mut out, &request.gift_code_sku_id);
    push_str_bytes(&mut out, "}");
    proof {
        assert(out@ =~= spec_request_body(request@));
    }
    out
}

} // verus!
