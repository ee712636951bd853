//! Derivation of store keys from a request's path and query string.
//!
//! A cache key joins the path's segments and the sorted `name=value`
//! parameters of the query with a colon, so that the order in which the
//! parameters were written does not matter: `/api/v1/users?name=John&age=30`
//! gives `api:v1:users:age=30:name=John`. Empty segments and parameters take
//! no part, so a key neither starts nor ends with an empty part.

use itertools::Itertools;
use vstd::prelude::*;
use vstd::relations::{sorted_by, total_ordering};
use vstd::string::*;

use crate::text::views_of;

verus! {

/// The delimiter between the parts of a key.
pub const KEY_DELIMITER: char = ':';

/// The separator between the segments of a path.
pub const PATH_SEPARATOR: char = '/';

/// The separator between the parameters of a query string.
pub const QUERY_SEPARATOR: char = '&';

/// The pieces of `s` between occurrences of `sep`, in order; there is always
/// at least one piece, and a piece may be empty.
pub open spec fn split_on(s: Seq<char>, sep: char) -> Seq<Seq<char>>
    decreases s.len(),
{
    if s.len() == 0 {
        seq![Seq::<char>::empty()]
    } else {
        let init = split_on(s.drop_last(), sep);
        if s.last() == sep {
            init.push(Seq::<char>::empty())
        } else {
            init.update(init.len() - 1, init.last().push(s.last()))
        }
    }
}

/// The pieces written one after another with `sep` between each two.
pub open spec fn join_with(pieces: Seq<Seq<char>>, sep: Seq<char>) -> Seq<char>
    decreases pieces.len(),
{
    if pieces.len() == 0 {
        Seq::<char>::empty()
    } else if pieces.len() == 1 {
        pieces[0]
    } else {
        join_with(pieces.drop_last(), sep) + sep + pieces.last()
    }
}

/// Lexicographic order of strings, character by character by code point
/// (for UTF-8 text this is the order of their bytes).
pub open spec fn chars_le(a: Seq<char>, b: Seq<char>) -> bool
    decreases a.len(),
{
    if a.len() == 0 {
        true
    } else if b.len() == 0 {
        false
    } else if a[0] != b[0] {
        (a[0] as int) < (b[0] as int)
    } else {
        chars_le(a.drop_first(), b.drop_first())
    }
}

/// The order in which query parameters appear in a key.
pub open spec fn token_order() -> spec_fn(Seq<char>, Seq<char>) -> bool {
    |a: Seq<char>, b: Seq<char>| chars_le(a, b)
}

/// The pieces that are not empty, in order.
pub open spec fn non_empty(pieces: Seq<Seq<char>>) -> Seq<Seq<char>>
    decreases pieces.len(),
{
    if pieces.len() == 0 {
        pieces
    } else if pieces.last().len() == 0 {
        non_empty(pieces.drop_last())
    } else {
        non_empty(pieces.drop_last()).push(pieces.last())
    }
}

/// The segments of a path: the non-empty pieces between its `/`.
pub open spec fn path_segments(path: Seq<char>) -> Seq<Seq<char>> {
    non_empty(split_on(path, PATH_SEPARATOR))
}

/// The parameters of a query string: the non-empty pieces between its `&`.
pub open spec fn query_params(query: Seq<char>) -> Seq<Seq<char>> {
    non_empty(split_on(query, QUERY_SEPARATOR))
}

/// The parameters of `query`, in key order.
pub open spec fn sorted_params(query: Seq<char>) -> Seq<Seq<char>> {
    query_params(query).sort_by(token_order())
}

/// The key of a request with this path and query string (an empty query when
/// the request has none): its segments, then its sorted parameters, joined by
/// the delimiter. An empty result identifies nothing.
pub open spec fn cache_key(path: Seq<char>, query: Seq<char>) -> Seq<char> {
    join_with(path_segments(path) + sorted_params(query), seq![KEY_DELIMITER])
}

/// The query string of a request, empty when it has none.
pub open spec fn query_text(query: Option<&str>) -> Seq<char> {
    match query {
        Some(q) => q@,
        None => Seq::<char>::empty(),
    }
}

/// The prefix of every rate-limit sentinel key.
pub open spec fn rate_limit_prefix() -> Seq<char> {
    seq!['e', 'r', 'r', 'o', 'r', 's', ':', 'r', 'a', 't', 'e', '_', 'l', 'i', 'm', 'i', 't', ':']
}

/// The sentinel key that marks the route of `path` as rate limited; the query
/// does not take part in it.
pub open spec fn rate_limit_key_of(path: Seq<char>) -> Seq<char> {
    rate_limit_prefix() + join_with(path_segments(path), seq![KEY_DELIMITER])
}

/// A request that carries neither a path nor a query identifies nothing.
#[derive(Debug, Clone, Copy, PartialEq, Eq)]
pub enum CacheKeyError {
    NoIdentifyingData,
}

impl CacheKeyError {
    /// The HTTP status with which such a request is rejected.
    pub fn status_code(&self) -> (r: u16)
        ensures
            r == 400,
    {
        400
    }
}

/// The cache key of a request.
#[derive(Debug, Clone)]
pub struct ExtractRedisKey(pub String);

impl ExtractRedisKey {
    /// The key of a request with this path and query string.
    pub fn from_path_and_query(path: &str, query: Option<&str>) -> (r: Result<ExtractRedisKey, CacheKeyError>)
        ensures
            match r {
                Ok(key) => key.0@ == cache_key(path@, query_text(query)) && key.0@.len() > 0,
                Err(e) => e == CacheKeyError::NoIdentifyingData
                    && cache_key(path@, query_text(query)).len() == 0,
            },
    {
        match derive_cache_key(path, query) {
            Ok(key) => Ok(ExtractRedisKey(key)),
            Err(e) => Err(e),
        }
    }
}

/// Relies on `itertools::sorted`: the same strings in ascending order of
/// `str`'s `Ord`, which compares UTF-8 text byte by byte, that is, character by
/// character by code point.
#[verifier::external_body]
fn sorted_strings(tokens: Vec<String>) -> (r: Vec<String>)
    ensures
        views_of(r@).to_multiset() == views_of(tokens@).to_multiset(),
        sorted_by(views_of(r@), token_order()),
{
    itertools::sorted(tokens).collect()
}

/// Relies on `itertools::Itertools::join`: the items' text with `sep` between
/// each two.
#[verifier::external_body]
fn join_strings(items: &Vec<String>, sep: &str) -> (r: String)
    ensures
        r@ == join_with(views_of(items@), sep@),
{
    items.iter().join(sep)
}

/// The pieces of `text` between occurrences of `sep`.
fn split_text(text: &str, sep: char) -> (r: Vec<String>)
    ensures
        views_of(r@) == split_on(text@, sep),
{
    let n = text.unicode_len();
    let mut pieces: Vec<String> = Vec::new();
    let mut current = String::new();
    let mut i: usize = 0;
    while i < n
        invariant
            n == text@.len(),
            i <= n,
            views_of(pieces@).push(current@) == split_on(text@.take(i as int), sep),
        decreases n - i,
    {
        let c = text.get_char(i);
        assert(text@.take(i + 1).drop_last() == text@.take(i as int));
        assert(text@.take(i + 1).last() == c);
        if c == sep {
            let ghost before = pieces@;
            pieces.push(current);
            current = String::new();
            assert(views_of(pieces@) == views_of(before).push(views_of(pieces@).last()));
        } else {
            current.push(c);
        }
        i = i + 1;
    }
    assert(text@.take(n as int) == text@);
    let ghost before = pieces@;
    pieces.push(current);
    assert(views_of(pieces@) == views_of(before).push(views_of(pieces@).last()));
    pieces
}

/// The non-empty pieces of `text` between occurrences of `sep`.
fn non_empty_pieces(text: &str, sep: char) -> (r: Vec<String>)
    ensures
        views_of(r@) == non_empty(split_on(text@, sep)),
{
    let mut rest = split_text(text, sep);
    let ghost all = views_of(rest@);
    let mut kept: Vec<String> = Vec::new();
    let mut taken: usize = 0;
    let total = rest.len();
    while rest.len() > 0
        invariant
            taken + rest@.len() == total,
            total == all.len(),
            views_of(rest@) == all.skip(taken as int),
            views_of(kept@) == non_empty(all.take(taken as int)),
        decreases rest@.len(),
    {
        let ghost rest_before = rest@;
        let piece = rest.remove(0);
        assert(all.take(taken + 1).drop_last() == all.take(taken as int));
        assert(all[taken as int] == views_of(rest_before)[0]);
        assert(all.take(taken + 1).last() == piece@);
        assert(rest@ =~= rest_before.drop_first());
        assert(views_of(rest@) =~= views_of(rest_before).drop_first());
        assert(all.skip(taken + 1) =~= all.skip(taken as int).drop_first());
        if piece.unicode_len() > 0 {
            let ghost kept_before = kept@;
            kept.push(piece);
            assert(views_of(kept@) == views_of(kept_before).push(views_of(kept@).last()));
        }
        taken = taken + 1;
    }
    assert(all.take(total as int) == all);
    kept
}

/// The rate-limit sentinel key of the route at `path`.
pub fn rate_limit_key(path: &str) -> (r: String)
    ensures
        r@ == rate_limit_key_of(path@),
{
    let segments = non_empty_pieces(path, PATH_SEPARATOR);
    let sep: &str = ":";
    proof {
        reveal_strlit(":");
        reveal_strlit("errors:rate_limit:");
    }
    assert(sep@ =~= seq![KEY_DELIMITER]);
    let joined = join_strings(&segments, sep);
    let mut key = String::from_str("errors:rate_limit:");
    key.append(joined.as_str());
    key
}

proof fn lemma_chars_le_reflexive(a: Seq<char>)
    ensures
        chars_le(a, a),
    decreases a.len(),
{
    if a.len() > 0 {
        lemma_chars_le_reflexive(a.drop_first());
    }
}

proof fn lemma_chars_le_antisymmetric(a: Seq<char>, b: Seq<char>)
    requires
        chars_le(a, b),
        chars_le(b, a),
    ensures
        a == b,
    decreases a.len(),
{
    if a.len() > 0 && b.len() > 0 {
        lemma_chars_le_antisymmetric(a.drop_first(), b.drop_first());
        assert(a == seq![a[0]] + a.drop_first());
        assert(b == seq![b[0]] + b.drop_first());
    }
}

proof fn lemma_chars_le_transitive(a: Seq<char>, b: Seq<char>, c: Seq<char>)
    requires
        chars_le(a, b),
        chars_le(b, c),
    ensures
        chars_le(a, c),
    decreases a.len(),
{
    if a.len() > 0 && b.len() > 0 && c.len() > 0 {
        if a[0] == b[0] && b[0] == c[0] {
            lemma_chars_le_transitive(a.drop_first(), b.drop_first(), c.drop_first());
        }
    }
}

proof fn lemma_chars_le_total(a: Seq<char>, b: Seq<char>)
    ensures
        chars_le(a, b) || chars_le(b, a),
    decreases a.len(),
{
    if a.len() > 0 && b.len() > 0 {
        if a[0] == b[0] {
            lemma_chars_le_total(a.drop_first(), b.drop_first());
        } else {
            assert((a[0] as int) != (b[0] as int));
        }
    }
}

/// The order of query parameters is a total order.
pub proof fn lemma_token_order_total()
    ensures
        total_ordering(token_order()),
{
    assert forall|a: Seq<char>| #[trigger] token_order()(a, a) by {
        lemma_chars_le_reflexive(a);
    }
    assert forall|a: Seq<char>, b: Seq<char>|
        #[trigger] token_order()(a, b) && #[trigger] token_order()(b, a) implies a == b by {
        lemma_chars_le_antisymmetric(a, b);
    }
    assert forall|a: Seq<char>, b: Seq<char>, c: Seq<char>|
        #[trigger] token_order()(a, b) && #[trigger] token_order()(b, c) implies token_order()(a, c) by {
        lemma_chars_le_transitive(a, b, c);
    }
    assert forall|a: Seq<char>, b: Seq<char>|
        #[trigger] token_order()(a, b) || #[trigger] token_order()(b, a) by {
        lemma_chars_le_total(a, b);
    }
}

/// A sequence sorted in token order with the same parameters as `tokens` is
/// `tokens` in key order.
proof fn lemma_sorted_is_sort_by(tokens: Seq<Seq<char>>, sorted: Seq<Seq<char>>)
    requires
        sorted.to_multiset() == tokens.to_multiset(),
        sorted_by(sorted, token_order()),
    ensures
        sorted == tokens.sort_by(token_order()),
{
    lemma_token_order_total();
    tokens.lemma_sort_by_ensures(token_order());
    vstd::seq_lib::lemma_sorted_unique(sorted, tokens.sort_by(token_order()), token_order());
}

/// The cache key of a request with this path and query string, or
/// `NoIdentifyingData` when that key would be empty.
pub fn derive_cache_key(path: &str, query: Option<&str>) -> (r: Result<String, CacheKeyError>)
    ensures
        match r {
            Ok(key) => key@ == cache_key(path@, query_text(query)) && key@.len() > 0,
            Err(e) => e == CacheKeyError::NoIdentifyingData
                && cache_key(path@, query_text(query)).len() == 0,
        },
{
    let q: &str = match query {
        Some(q) => q,
        None => "",
    };
    proof {
        reveal_strlit("");
    }
    assert(q@ == query_text(query));
    let mut parts = non_empty_pieces(path, PATH_SEPARATOR);
    let params = non_empty_pieces(q, QUERY_SEPARATOR);
    let mut sorted = sorted_strings(params);
    proof {
        lemma_sorted_is_sort_by(views_of(params@), views_of(sorted@));
    }
    let ghost segments = parts@;
    let ghost in_order = sorted@;
    parts.append(&mut sorted);
    assert(views_of(parts@) =~= views_of(segments) + views_of(in_order));
    let sep: &str = ":";
    proof {
        reveal_strlit(":");
    }
    assert(sep@ =~= seq![KEY_DELIMITER]);
    let key = join_strings(&parts, sep);
    if key.unicode_len() == 0 {
        Err(CacheKeyError::NoIdentifyingData)
    } else {
        Ok(key)
    }
}

} // verus!
