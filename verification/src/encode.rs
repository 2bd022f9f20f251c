//! Percent-encoding of text for the query component of a URL.
//!
//! The characters of a value are encoded byte-wise over their UTF-8 form:
//! every byte in the query unsafe set is replaced by `%` followed by two
//! uppercase hexadecimal digits, and every other byte passes through
//! unchanged. The unsafe set is the WHATWG query percent-encode set
//! (controls, space, `"`, `#`, `<`, `>`) extended by `%`, `&`, `=` and `+`,
//! together with every non-ASCII byte.

use vstd::prelude::*;
use vstd::string::StringExecFns;
use vstd::utf8::encode_utf8;

verus! {

/// Whether a byte must be percent-escaped in a query component: C0 controls
/// and DEL, every non-ASCII byte, space, `"`, `#`, `<`, `>`, `%`, `&`, `=`
/// and `+`.
pub open spec fn is_query_unsafe(b: u8) -> bool {
    ||| b < 0x20  // C0 controls
    ||| b >= 0x7f  // DEL and every non-ASCII byte
    ||| b == 0x20  // space
    ||| b == 0x22  // double quote
    ||| b == 0x23  // hash
    ||| b == 0x3c  // less than
    ||| b == 0x3e  // greater than
    ||| b == 0x25  // percent
    ||| b == 0x26  // ampersand
    ||| b == 0x3d  // equals
    ||| b == 0x2b  // plus
}

/// The uppercase hexadecimal digit of a value below 16.
pub open spec fn hex_upper(n: int) -> char {
    if n < 10 {
        (0x30 + n) as char
    } else {
        (0x37 + n) as char
    }
}

/// The three characters `%XX` that stand for a percent-escaped byte.
pub open spec fn percent_escaped(b: u8) -> Seq<char> {
    seq!['%', hex_upper(b as int / 16), hex_upper(b as int % 16)]
}

/// How one byte appears in the encoded output: escaped when unsafe,
/// as its own (ASCII) character otherwise.
pub open spec fn encoded_byte(b: u8) -> Seq<char> {
    if is_query_unsafe(b) {
        percent_escaped(b)
    } else {
        seq![b as char]
    }
}

/// The encoded output for a whole byte sequence, in order.
pub open spec fn encoded_bytes(bs: Seq<u8>) -> Seq<char>
    decreases bs.len(),
{
    if bs.len() == 0 {
        Seq::empty()
    } else {
        encoded_bytes(bs.drop_last()) + encoded_byte(bs.last())
    }
}

/// The percent-encoded form of a text value: its UTF-8 bytes, each encoded.
pub open spec fn encoded_text(s: Seq<char>) -> Seq<char> {
    encoded_bytes(encode_utf8(s))
}

/// How one key-value pair appears in the rendered query string: the encoded
/// key and the encoded value, separated by `=`.
pub open spec fn pair_chars(p: (Seq<char>, Seq<char>)) -> Seq<char> {
    encoded_text(p.0) + seq!['='] + encoded_text(p.1)
}

/// The rendered query string for a sequence of key-value pairs, in order:
/// empty when there are no pairs, otherwise `?` followed by the encoded
/// pairs joined by `&`.
pub open spec fn query_string_chars(ps: Seq<(Seq<char>, Seq<char>)>) -> Seq<char>
    decreases ps.len(),
{
    if ps.len() == 0 {
        Seq::empty()
    } else {
        query_string_chars(ps.drop_last()) + seq![if ps.len() == 1 { '?' } else { '&' }]
            + pair_chars(ps.last())
    }
}

/// Relies on `percent_encoding::percent_encode_byte`: it returns the `%XX`
/// escape of the byte, with two uppercase hexadecimal digits.
pub assume_specification[ percent_encoding::percent_encode_byte ](byte: u8) -> (r: &'static str)
    ensures
        r@ == percent_escaped(byte),
;

/// Relies on `String::push` from std: it appends exactly the given character.
#[verifier::external_body]
pub(crate) fn push_char(s: &mut String, c: char)
    ensures
        final(s)@ == old(s)@ + seq![c],
{
    s.push(c);
}

/// Whether a byte must be percent-escaped in a query component.
pub fn is_query_unsafe_byte(b: u8) -> (r: bool)
    ensures
        r == is_query_unsafe(b),
{
    b < 0x20 || b >= 0x7f || b == 0x20 || b == 0x22 || b == 0x23 || b == 0x3c || b == 0x3e
        || b == 0x25 || b == 0x26 || b == 0x3d || b == 0x2b
}

/// Percent-encodes a text value for use as a key or value of a query
/// component: every unsafe byte of its UTF-8 form becomes `%XX` with
/// uppercase hexadecimal digits, every other byte passes through.
pub fn encode_query_text(s: &str) -> (r: String)
    ensures
        r@ == encoded_text(s@),
{
    let bytes = s.as_bytes();
    let mut out = String::new();
    let mut i: usize = 0;
    while i < bytes.len()
        invariant
            i <= bytes@.len(),
            bytes@ == encode_utf8(s@),
            out@ == encoded_bytes(bytes@.take(i as int)),
        decreases bytes@.len() - i,
    {
        let b = bytes[i];
        if is_query_unsafe_byte(b) {
            let escape = percent_encoding::percent_encode_byte(b);
            out.append(escape);
        } else {
            push_char(&mut out, b as char);
        }
        proof {
            let taken = bytes@.take(i + 1 as int);
            assert(taken.drop_last() =~= bytes@.take(i as int));
            assert(taken.last() == bytes@[i as int]);
        }
        i = i + 1;
    }
    proof {
        assert(bytes@.take(bytes@.len() as int) =~= bytes@);
    }
    out
}

} // verus!
