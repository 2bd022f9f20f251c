//! A query string builder that avoids a growable pair sequence.
//!
//! Every append wraps the previous builder in a new node, so a builder is a
//! chain of immutable nodes from a root marker to the newest pair. Rendering
//! walks the chain: it first renders everything before a node, then the
//! node's own pair, and places `?` and `&` so that nodes holding no pair
//! (appends of an absent optional value) leave no stray separator.

use vstd::prelude::*;

use crate::encode::{encode_query_text, pair_chars, push_char, query_string_chars};

verus! {

/// A type alias for the [`WrappedQueryString`] root.
pub type QueryStringSimple = WrappedQueryString<RootMarker, EmptyValue>;

/// Every pair rendered in order, each followed by one `&`.
pub open spec fn pairs_amp_chars(ps: Seq<(Seq<char>, Seq<char>)>) -> Seq<char>
    decreases ps.len(),
{
    if ps.len() == 0 {
        Seq::empty()
    } else {
        pairs_amp_chars(ps.drop_last()) + pair_chars(ps.last()) + seq!['&']
    }
}

/// What a chain node appends for its prefix of pairs. When a pair is known
/// to follow (`should_display`), that is `?` and every pair followed by `&`;
/// otherwise it is the complete query string of the prefix.
pub open spec fn cond_chars(ps: Seq<(Seq<char>, Seq<char>)>, should_display: bool) -> Seq<char> {
    if should_display {
        seq!['?'] + pairs_amp_chars(ps)
    } else {
        query_string_chars(ps)
    }
}

/// The rendering of an optional pair: `encoded-key=encoded-value`, or
/// nothing when the pair is absent.
pub open spec fn opt_pair_chars(p: Option<(Seq<char>, Seq<char>)>) -> Seq<char> {
    match p {
        Some(p) => pair_chars(p),
        None => Seq::empty(),
    }
}

/// The two forms a rendered prefix takes agree: `?` followed by every pair
/// with a trailing `&` is the complete query string of those pairs followed
/// by the separator that the next pair would need.
proof fn lemma_question_amp(ps: Seq<(Seq<char>, Seq<char>)>)
    ensures
        seq!['?'] + pairs_amp_chars(ps) == query_string_chars(ps) + seq![
            if ps.len() == 0 {
                '?'
            } else {
                '&'
            },
        ],
    decreases ps.len(),
{
    if ps.len() == 0 {
        assert(seq!['?'] + pairs_amp_chars(ps) =~= query_string_chars(ps) + seq!['?']);
    } else {
        lemma_question_amp(ps.drop_last());
        assert(seq!['?'] + pairs_amp_chars(ps) =~= (seq!['?'] + pairs_amp_chars(ps.drop_last()))
            + pair_chars(ps.last()) + seq!['&']);
        assert((query_string_chars(ps.drop_last()) + seq![
            if ps.drop_last().len() == 0 {
                '?'
            } else {
                '&'
            },
        ]) + pair_chars(ps.last()) + seq!['&'] =~= query_string_chars(ps) + seq!['&']);
    }
}

/// A node of a builder chain: either pairs accumulated so far, or the root.
pub trait Identifyable {
    /// The key-value pairs accumulated from the root to this node, in
    /// insertion order.
    spec fn pairs(&self) -> Seq<(Seq<char>, Seq<char>)>;

    /// Whether this node is the root of a chain.
    spec fn spec_is_root(&self) -> bool;

    /// Determines whether this node is the root of a chain.
    fn is_root(&self) -> (r: bool)
        ensures
            r == self.spec_is_root(),
    ;

    /// Determines whether no pair was accumulated up to this node.
    fn is_empty(&self) -> (r: bool)
        ensures
            r == (self.pairs().len() == 0),
    ;

    /// Determines the number of pairs accumulated up to this node.
    fn len(&self) -> (r: usize)
        requires
            self.pairs().len() <= usize::MAX,
        ensures
            r == self.pairs().len(),
    ;
}

/// Rendering of a chain prefix, in the two forms of [`cond_chars`]: the
/// caller passes `should_display` when it will render a pair of its own, so
/// that this prefix ends with the separator the caller's pair needs.
pub trait ConditionalDisplay: Identifyable {
    /// Appends this prefix's rendering to `out`.
    fn cond_fmt(&self, should_display: bool, out: &mut String)
        ensures
            final(out)@ == old(out)@ + cond_chars(self.pairs(), should_display),
    ;
}

/// A value slot of one chain node: it may hold one key-value pair.
pub trait ValueDisplay {
    /// The pair this value stands for, absent for the empty marker value.
    spec fn opt_pair(&self) -> Option<(Seq<char>, Seq<char>)>;

    /// Determines whether this value holds a pair.
    fn has_pair(&self) -> (r: bool)
        ensures
            r == (self.opt_pair() is Some),
    ;

    /// Appends `encoded-key=encoded-value` for the held pair, or nothing
    /// when no pair is held.
    fn render_pair(&self, out: &mut String)
        ensures
            final(out)@ == old(out)@ + opt_pair_chars(self.opt_pair()),
    ;
}

/// This type serves as a root marker for the builder. It has no public
/// constructor, thus can only be created within this crate.
pub struct RootMarker {
    noop: (),
}

/// This type serves as an empty value marker for the builder. It has no
/// public constructor, thus can only be created within this crate.
pub struct EmptyValue {
    noop: (),
}

/// A helper type to track the values of [`WrappedQueryString`].
pub struct Kvp {
    key: String,
    value: String,
}

enum BaseOption<B> {
    Filled(B),
    Empty,
}

enum KvpOption<T> {
    Filled(T),
    Empty,
}

/// A query string builder for percent encoding key-value pairs.
/// This variant avoids a growable sequence: each append wraps the previous
/// builder in a new node, and an empty builder allocates nothing.
pub struct WrappedQueryString<B, T> where B: ConditionalDisplay + Identifyable, T: ValueDisplay {
    base: BaseOption<B>,
    value: KvpOption<T>,
}

impl Identifyable for RootMarker {
    open spec fn pairs(&self) -> Seq<(Seq<char>, Seq<char>)> {
        Seq::empty()
    }

    open spec fn spec_is_root(&self) -> bool {
        true
    }

    fn is_root(&self) -> (r: bool) {
        true
    }

    fn is_empty(&self) -> (r: bool) {
        true
    }

    fn len(&self) -> (r: usize) {
        0
    }
}

impl ConditionalDisplay for RootMarker {
    fn cond_fmt(&self, should_display: bool, out: &mut String) {
        if should_display {
            push_char(out, '?');
        }
        proof {
            assert(out@ =~= out@ + Seq::<char>::empty());
        }
    }
}

impl ValueDisplay for EmptyValue {
    open spec fn opt_pair(&self) -> Option<(Seq<char>, Seq<char>)> {
        None
    }

    fn has_pair(&self) -> (r: bool) {
        false
    }

    fn render_pair(&self, out: &mut String) {
        proof {
            assert(out@ =~= out@ + Seq::<char>::empty());
        }
    }
}

impl ValueDisplay for Kvp {
    closed spec fn opt_pair(&self) -> Option<(Seq<char>, Seq<char>)> {
        Some((self.key@, self.value@))
    }

    fn has_pair(&self) -> (r: bool) {
        true
    }

    fn render_pair(&self, out: &mut String) {
        let encoded_key = encode_query_text(self.key.as_str());
        out.append(encoded_key.as_str());
        push_char(out, '=');
        let encoded_value = encode_query_text(self.value.as_str());
        out.append(encoded_value.as_str());
    }
}

impl<B> Identifyable for BaseOption<B> where B: ConditionalDisplay + Identifyable {
    closed spec fn pairs(&self) -> Seq<(Seq<char>, Seq<char>)> {
        match self {
            BaseOption::Filled(b) => b.pairs(),
            BaseOption::Empty => Seq::empty(),
        }
    }

    closed spec fn spec_is_root(&self) -> bool {
        self is Empty
    }

    fn is_root(&self) -> (r: bool) {
        match self {
            BaseOption::Filled(_) => false,
            BaseOption::Empty => true,
        }
    }

    fn is_empty(&self) -> (r: bool) {
        match self {
            BaseOption::Filled(b) => b.is_empty(),
            BaseOption::Empty => true,
        }
    }

    fn len(&self) -> (r: usize) {
        match self {
            BaseOption::Filled(b) => b.len(),
            BaseOption::Empty => 0,
        }
    }
}

impl<B> ConditionalDisplay for BaseOption<B> where B: ConditionalDisplay + Identifyable {
    fn cond_fmt(&self, should_display: bool, out: &mut String) {
        match self {
            BaseOption::Filled(b) => b.cond_fmt(should_display, out),
            BaseOption::Empty => {
                // Reached the root marker.
                if should_display {
                    push_char(out, '?');
                }
                proof {
                    assert(out@ =~= out@ + Seq::<char>::empty());
                }
            },
        }
    }
}

impl<T: ValueDisplay> KvpOption<T> {
    closed spec fn slot(&self) -> Option<(Seq<char>, Seq<char>)> {
        match self {
            KvpOption::Filled(t) => t.opt_pair(),
            KvpOption::Empty => None,
        }
    }

    fn is_empty(&self) -> (r: bool)
        ensures
            r == (self.slot() is None),
    {
        match self {
            KvpOption::Filled(t) => !t.has_pair(),
            KvpOption::Empty => true,
        }
    }

    fn render(&self, out: &mut String)
        ensures
            final(out)@ == old(out)@ + opt_pair_chars(self.slot()),
    {
        match self {
            KvpOption::Filled(t) => t.render_pair(out),
            KvpOption::Empty => {
                proof {
                    assert(out@ =~= out@ + Seq::<char>::empty());
                }
            },
        }
    }
}

impl<B, T> Identifyable for WrappedQueryString<B, T> where
    B: ConditionalDisplay + Identifyable,
    T: ValueDisplay,
 {
    closed spec fn pairs(&self) -> Seq<(Seq<char>, Seq<char>)> {
        match self.value.slot() {
            Some(p) => self.base.pairs().push(p),
            None => self.base.pairs(),
        }
    }

    closed spec fn spec_is_root(&self) -> bool {
        self.base is Empty
    }

    fn is_root(&self) -> (r: bool) {
        match &self.base {
            BaseOption::Filled(_) => false,
            BaseOption::Empty => true,
        }
    }

    fn is_empty(&self) -> (r: bool) {
        if self.value.is_empty() {
            self.base.is_empty()
        } else {
            false
        }
    }

    fn len(&self) -> (r: usize) {
        if self.value.is_empty() {
            self.base.len()
        } else {
            1 + self.base.len()
        }
    }
}

impl<B, T> ConditionalDisplay for WrappedQueryString<B, T> where
    B: ConditionalDisplay + Identifyable,
    T: ValueDisplay,
 {
    fn cond_fmt(&self, should_display: bool, out: &mut String) {
        if !should_display {
            // Our caller has nothing to display. If we have nothing to
            // display either, the whole prefix renders as a query string of
            // its own.
            if self.value.is_empty() {
                self.base.cond_fmt(false, out);
                return ;
            }
            // We do have a pair to display: the part before it ends with a
            // separator.
            self.base.cond_fmt(true, out);
        } else {
            // The caller has a pair to display, so every prefix ends with a
            // separator.
            self.base.cond_fmt(true, out);
        }
        // If we hold no pair, the prefix rendered above is already complete.
        if self.value.is_empty() {
            return ;
        }
        self.value.render(out);
        // If our caller will display a pair, it needs a separator after ours.
        if should_display {
            push_char(out, '&');
        }
        proof {
            if self.value.slot() is Some {
                let p = self.value.slot()->0;
                assert(self.pairs().drop_last() =~= self.base.pairs());
                if should_display {
                    assert(cond_chars(self.pairs(), true) =~= (seq!['?'] + pairs_amp_chars(
                        self.base.pairs(),
                    )) + pair_chars(p) + seq!['&']);
                } else {
                    lemma_question_amp(self.base.pairs());
                    assert(cond_chars(self.pairs(), false) =~= (seq!['?'] + pairs_amp_chars(
                        self.base.pairs(),
                    )) + pair_chars(p));
                }
            }
        }
    }
}

impl<B, T> WrappedQueryString<B, T> where B: ConditionalDisplay + Identifyable, T: ValueDisplay {
    /// Creates a new, empty query string builder.
    pub(crate) fn new() -> (r: WrappedQueryString<RootMarker, EmptyValue>)
        ensures
            r.pairs() == Seq::<(Seq<char>, Seq<char>)>::empty(),
    {
        WrappedQueryString { base: BaseOption::Empty, value: KvpOption::Empty }
    }

    /// Appends a key-value pair to the query string, wrapping this builder
    /// in a new node.
    pub fn with_value(self, key: &str, value: &str) -> (r: WrappedQueryString<Self, Kvp>)
        ensures
            r.pairs() == self.pairs().push((key@, value@)),
    {
        WrappedQueryString {
            base: BaseOption::Filled(self),
            value: KvpOption::Filled(Kvp { key: key.to_owned(), value: value.to_owned() }),
        }
    }

    /// Appends a key-value pair to the query string if the value exists;
    /// the new node holds no pair when the value is absent.
    pub fn with_opt_value(self, key: &str, value: Option<&str>) -> (r: WrappedQueryString<
        Self,
        Kvp,
    >)
        ensures
            value matches Some(v) ==> r.pairs() == self.pairs().push((key@, v@)),
            value is None ==> r.pairs() == self.pairs(),
    {
        match value {
            Some(value) => WrappedQueryString {
                base: BaseOption::Filled(self),
                value: KvpOption::Filled(Kvp { key: key.to_owned(), value: value.to_owned() }),
            },
            None => WrappedQueryString { base: BaseOption::Filled(self), value: KvpOption::Empty },
        }
    }

    /// Determines the number of key-value pairs currently in the builder.
    pub fn len(&self) -> (r: usize)
        requires
            self.pairs().len() <= usize::MAX,
        ensures
            r == self.pairs().len(),
    {
        if self.value.is_empty() {
            self.base.len()
        } else {
            1 + self.base.len()
        }
    }

    /// Determines if the builder is currently empty.
    pub fn is_empty(&self) -> (r: bool)
        ensures
            r == (self.pairs().len() == 0),
    {
        // If this is the root node and we don't have a value, we're empty.
        if self.is_root() && self.value.is_empty() {
            return true;
        }
        // If we're not the root node we need to check if all values are
        // empty.
        if !self.value.is_empty() {
            return false;
        }
        self.base.is_empty()
    }

    /// Renders the query string: the empty string when no pair was
    /// appended, otherwise `?` followed by the percent-encoded pairs in
    /// insertion order, joined by `&`.
    pub fn to_string(&self) -> (r: String)
        ensures
            r@ == query_string_chars(self.pairs()),
    {
        let mut out = String::new();
        let should_display = !self.value.is_empty();
        self.base.cond_fmt(should_display, &mut out);
        if should_display {
            self.value.render(&mut out);
        }
        proof {
            if self.value.slot() is Some {
                let p = self.value.slot()->0;
                lemma_question_amp(self.base.pairs());
                assert(self.pairs().drop_last() =~= self.base.pairs());
                assert(query_string_chars(self.pairs()) =~= (seq!['?'] + pairs_amp_chars(
                    self.base.pairs(),
                )) + pair_chars(p));
            }
        }
        out
    }
}

impl Default for QueryStringSimple {
    /// Creates a new, empty query string builder.
    fn default() -> (r: Self)
        ensures
            r.pairs() == Seq::<(Seq<char>, Seq<char>)>::empty(),
    {
        WrappedQueryString::<RootMarker, EmptyValue>::new()
    }
}

} // verus!
