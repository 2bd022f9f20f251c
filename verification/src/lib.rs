//! A query string builder for percent encoding key-value pairs.
//!
//! The builder accumulates key-value pairs and renders them as a query
//! string: a leading `?`, pairs joined by `&`, key and value separated by
//! `=`, each percent-encoded for the query component of a URL. An empty
//! builder renders as the empty string. Pairs keep their insertion order,
//! and duplicate keys are kept.

use vstd::prelude::*;

pub mod encode;
pub mod laws;
pub mod slim;

pub use crate::slim::{QueryStringSimple, WrappedQueryString};

use crate::encode::{encode_query_text, push_char, query_string_chars};
use crate::slim::Identifyable;

verus! {

/// One owned key-value pair of the dynamic builder.
#[derive(Debug, Clone)]
struct Kvp {
    key: String,
    value: String,
}

/// A query string builder that owns a growable sequence of key-value pairs.
///
/// Appending adds a pair at the end; rendering with [`QueryString::to_string`]
/// produces `?k1=v1&k2=v2&...` with every key and value percent-encoded, or
/// the empty string when no pair was appended.
#[derive(Debug, Clone)]
pub struct QueryString {
    pairs: Vec<Kvp>,
}

impl View for QueryString {
    type V = Seq<(Seq<char>, Seq<char>)>;

    /// The builder is modeled as the sequence of its key-value pairs,
    /// each a pair of character sequences, in insertion order.
    closed spec fn view(&self) -> Seq<(Seq<char>, Seq<char>)> {
        self.pairs@.map(|i: int, kvp: Kvp| (kvp.key@, kvp.value@))
    }
}

impl QueryString {
    /// Creates a new, empty query string builder of the chained variant,
    /// which allocates nothing until a pair is appended.
    pub fn simple() -> (r: QueryStringSimple)
        ensures
            r.pairs() == Seq::<(Seq<char>, Seq<char>)>::empty(),
    {
        QueryStringSimple::default()
    }

    /// Creates a new, empty query string builder.
    pub fn dynamic() -> (r: Self)
        ensures
            r@ == Seq::<(Seq<char>, Seq<char>)>::empty(),
    {
        let qs = QueryString { pairs: Vec::new() };
        proof {
            assert(qs@ =~= Seq::<(Seq<char>, Seq<char>)>::empty());
        }
        qs
    }

    /// Appends a key-value pair to the query string, consuming and
    /// returning the builder for chaining.
    pub fn with_value(self, key: &str, value: &str) -> (r: Self)
        ensures
            r@ == self@.push((key@, value@)),
    {
        let mut qs = self;
        qs.push(key, value);
        qs
    }

    /// Appends a key-value pair to the query string if the value exists,
    /// consuming and returning the builder for chaining.
    pub fn with_opt_value(self, key: &str, value: Option<&str>) -> (r: Self)
        ensures
            value matches Some(v) ==> r@ == self@.push((key@, v@)),
            value is None ==> r@ == self@,
    {
        match value {
            Some(value) => self.with_value(key, value),
            None => self,
        }
    }

    /// Appends a key-value pair to the query string in place.
    pub fn push(&mut self, key: &str, value: &str) -> (r: &Self)
        ensures
            final(self)@ == old(self)@.push((key@, value@)),
            r@ == final(self)@,
    {
        self.pairs.push(Kvp { key: key.to_owned(), value: value.to_owned() });
        proof {
            assert(self@ =~= old(self)@.push((key@, value@)));
        }
        self
    }

    /// Appends a key-value pair to the query string in place if the value
    /// exists; an absent value leaves the builder unchanged.
    pub fn push_opt(&mut self, key: &str, value: Option<&str>) -> (r: &Self)
        ensures
            value matches Some(v) ==> final(self)@ == old(self)@.push((key@, v@)),
            value is None ==> final(self)@ == old(self)@,
            r@ == final(self)@,
    {
        match value {
            Some(value) => self.push(key, value),
            None => self,
        }
    }

    /// Determines the number of key-value pairs currently in the builder.
    pub fn len(&self) -> (r: usize)
        ensures
            r == self@.len(),
    {
        self.pairs.len()
    }

    /// Determines if the builder is currently empty.
    pub fn is_empty(&self) -> (r: bool)
        ensures
            r == (self@.len() == 0),
    {
        self.pairs.is_empty()
    }

    /// Appends another query string builder's values in place, after this
    /// builder's own and in their original order.
    pub fn append(&mut self, other: QueryString)
        ensures
            final(self)@ == old(self)@ + other@,
    {
        let mut source = other;
        self.pairs.append(&mut source.pairs);
        proof {
            assert(self@ =~= old(self)@ + other@);
        }
    }

    /// Appends another query string builder's values, consuming both
    /// builders and returning the merged one.
    pub fn append_into(self, other: QueryString) -> (r: Self)
        ensures
            r@ == self@ + other@,
    {
        let mut qs = self;
        qs.append(other);
        qs
    }

    /// Renders the query string: the empty string when no pair was
    /// appended, otherwise `?` followed by the percent-encoded pairs in
    /// insertion order, joined by `&`.
    pub fn to_string(&self) -> (r: String)
        ensures
            r@ == query_string_chars(self@),
    {
        let mut out = String::new();
        let mut i: usize = 0;
        while i < self.pairs.len()
            invariant
                i <= self@.len(),
                self@.len() == self.pairs@.len(),
                out@ == query_string_chars(self@.take(i as int)),
            decreases self@.len() - i,
        {
            if i == 0 {
                push_char(&mut out, '?');
            } else {
                push_char(&mut out, '&');
            }
            let kvp = &self.pairs[i];
            let encoded_key = encode_query_text(kvp.key.as_str());
            out.append(encoded_key.as_str());
            push_char(&mut out, '=');
            let encoded_value = encode_query_text(kvp.value.as_str());
            out.append(encoded_value.as_str());
            proof {
                let taken = self@.take(i + 1 as int);
                assert(taken.drop_last() =~= self@.take(i as int));
                assert(taken.last() == self@[i as int]);
            }
            i = i + 1;
        }
        proof {
            assert(self@.take(self@.len() as int) =~= self@);
        }
        out
    }
}

} // verus!

