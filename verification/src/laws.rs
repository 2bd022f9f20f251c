//! Laws of the query string builders, stated over the pair sequences that
//! the builders' contracts use.
//!
//! Both builder variants render through [`query_string_chars`], so every law
//! here holds of [`crate::QueryString`] and of [`crate::WrappedQueryString`]
//! alike.

use vstd::prelude::*;

use crate::encode::{
    encoded_byte, encoded_bytes, encoded_text, hex_upper, is_query_unsafe, pair_chars,
    percent_escaped, query_string_chars,
};
use vstd::utf8::encode_utf8;

verus! {

/// The continuation of a rendered query string: every pair preceded by one
/// `&`, in order. Appending pairs to a non-empty builder extends its
/// rendering by this form.
pub open spec fn amp_joined_chars(ps: Seq<(Seq<char>, Seq<char>)>) -> Seq<char>
    decreases ps.len(),
{
    if ps.len() == 0 {
        Seq::empty()
    } else {
        amp_joined_chars(ps.drop_last()) + seq!['&'] + pair_chars(ps.last())
    }
}

/// Empty invariant: a builder holding no pairs renders as the empty string.
pub proof fn lemma_render_empty()
    ensures
        query_string_chars(Seq::<(Seq<char>, Seq<char>)>::empty()) == Seq::<char>::empty(),
{
}

/// Count correctness: an append with a present value grows the pair
/// sequence by exactly one, and an append with an absent value leaves it
/// unchanged. So `n` required appends and `m` optional appends of which `k`
/// received no value leave `n + m - k` pairs.
pub proof fn lemma_append_count(
    ps: Seq<(Seq<char>, Seq<char>)>,
    key: Seq<char>,
    value: Option<Seq<char>>,
)
    ensures
        (match value {
            Some(v) => ps.push((key, v)),
            None => ps,
        }).len() == ps.len() + (if value is Some {
            1int
        } else {
            0int
        }),
{
}

/// Order preservation, one append: rendering lists pairs in insertion
/// order. The query string of a pair sequence extended by one pair is the
/// query string of the original pairs, then the separator that position
/// needs (`?` before the first pair, `&` before every later one), then the
/// encoded pair.
pub proof fn lemma_render_snoc(ps: Seq<(Seq<char>, Seq<char>)>, p: (Seq<char>, Seq<char>))
    ensures
        query_string_chars(ps.push(p)) == query_string_chars(ps) + seq![
            if ps.len() == 0 {
                '?'
            } else {
                '&'
            },
        ] + pair_chars(p),
{
    assert(ps.push(p).drop_last() =~= ps);
}

/// Order preservation across a merge: when pair sequences are concatenated,
/// as by the append operations, the receiver's pairs are rendered first and
/// the source's pairs follow, each block in its own order.
pub proof fn lemma_render_concat(a: Seq<(Seq<char>, Seq<char>)>, b: Seq<(Seq<char>, Seq<char>)>)
    ensures
        a.len() == 0 ==> query_string_chars(a + b) == query_string_chars(b),
        a.len() > 0 ==> query_string_chars(a + b) == query_string_chars(a) + amp_joined_chars(b),
    decreases b.len(),
{
    if a.len() == 0 {
        assert(a + b =~= b);
    } else if b.len() == 0 {
        assert(a + b =~= a);
        assert(query_string_chars(a) + amp_joined_chars(b) =~= query_string_chars(a));
    } else {
        lemma_render_concat(a, b.drop_last());
        assert((a + b).drop_last() =~= a + b.drop_last());
        assert((a + b).last() == b.last());
        assert(query_string_chars(a + b) =~= (query_string_chars(a) + amp_joined_chars(
            b.drop_last(),
        )) + seq!['&'] + pair_chars(b.last()));
    }
}

proof fn lemma_encoded_bytes_no_separators(bs: Seq<u8>)
    ensures
        forall|i: int|
            0 <= i < encoded_bytes(bs).len() ==> encoded_bytes(bs)[i] != '&' && encoded_bytes(bs)[i]
                != '=',
    decreases bs.len(),
{
    if bs.len() > 0 {
        lemma_encoded_bytes_no_separators(bs.drop_last());
        let b = bs.last();
        let prefix = encoded_bytes(bs.drop_last());
        let tail = encoded_byte(b);
        if is_query_unsafe(b) {
            assert(hex_upper(b as int / 16) != '&' && hex_upper(b as int / 16) != '=');
            assert(hex_upper(b as int % 16) != '&' && hex_upper(b as int % 16) != '=');
        } else {
            assert(b as char != '&' && b as char != '=');
        }
        assert forall|j: int| 0 <= j < tail.len() implies tail[j] != '&' && tail[j] != '=' by {
            if is_query_unsafe(b) {
                assert(tail == seq!['%', hex_upper(b as int / 16), hex_upper(b as int % 16)]);
            } else {
                assert(tail == seq![b as char]);
            }
        }
        assert forall|i: int|
            0 <= i < encoded_bytes(bs).len() implies encoded_bytes(bs)[i] != '&' && encoded_bytes(
            bs,
        )[i] != '=' by {
            assert(encoded_bytes(bs) == prefix + tail);
            if i < prefix.len() {
                assert(encoded_bytes(bs)[i] == prefix[i]);
            } else {
                assert(encoded_bytes(bs)[i] == tail[i - prefix.len()]);
            }
        }
    }
}

/// Round-trip safety of reserved characters: percent-encoding leaves no bare
/// pair separator or key-value separator in its output, so every `&` and `=`
/// of a rendered query string was placed by the builder itself.
pub proof fn lemma_encoded_no_separators(s: Seq<char>)
    ensures
        forall|i: int|
            0 <= i < encoded_text(s).len() ==> encoded_text(s)[i] != '&' && encoded_text(s)[i]
                != '=',
{
    lemma_encoded_bytes_no_separators(encode_utf8(s));
}

/// Multi-byte safety: every byte of a multi-byte UTF-8 sequence is at or
/// above 0x80, so a character outside ASCII renders as the percent-escaped
/// form of each of its UTF-8 bytes.
pub proof fn lemma_non_ascii_byte_escaped(b: u8)
    requires
        b >= 0x80,
    ensures
        encoded_byte(b) == percent_escaped(b),
{
}

/// Idempotent rendering: the rendered query string is a function of the
/// pairs alone, so rendering the same unmutated builder twice yields
/// identical output.
pub proof fn lemma_render_idempotent(
    ps: Seq<(Seq<char>, Seq<char>)>,
    first: Seq<char>,
    second: Seq<char>,
)
    requires
        first == query_string_chars(ps),
        second == query_string_chars(ps),
    ensures
        first == second,
{
}

} // verus!
