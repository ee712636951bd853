//! What the cache key tells apart and what it does not.

use vstd::prelude::*;
use vstd::relations::sorted_by;

use crate::cache_key::{
    cache_key, join_with, lemma_token_order_total, non_empty, path_segments, query_params,
    sorted_params, split_on, token_order, KEY_DELIMITER, QUERY_SEPARATOR,
};

verus! {

broadcast use vstd::seq_lib::group_to_multiset_ensures;

/// No piece holds the key delimiter.
pub open spec fn free_of_delimiter(pieces: Seq<Seq<char>>) -> bool {
    forall|p: Seq<char>| pieces.contains(p) ==> !p.contains(KEY_DELIMITER)
}

/// No piece is empty.
pub open spec fn all_non_empty(pieces: Seq<Seq<char>>) -> bool {
    forall|i: int| 0 <= i < pieces.len() ==> #[trigger] pieces[i].len() > 0
}

spec fn delimiter_free_at(t: Seq<Seq<char>>) -> bool {
    forall|i: int, k: int| 0 <= i < t.len() && 0 <= k < t[i].len() ==> #[trigger] t[i][k] != KEY_DELIMITER
}

proof fn lemma_free_at(t: Seq<Seq<char>>)
    requires
        free_of_delimiter(t),
    ensures
        delimiter_free_at(t),
{
    assert forall|i: int, k: int| 0 <= i < t.len() && 0 <= k < t[i].len() implies #[trigger] t[i][k]
        != KEY_DELIMITER by {
        assert(t.contains(t[i]));
        if t[i][k] == KEY_DELIMITER {
            assert(t[i].contains(KEY_DELIMITER));
        }
    }
}

proof fn lemma_non_empty(t: Seq<Seq<char>>)
    ensures
        all_non_empty(non_empty(t)),
        forall|p: Seq<char>| non_empty(t).contains(p) ==> t.contains(p),
    decreases t.len(),
{
    if t.len() > 0 {
        lemma_non_empty(t.drop_last());
        let r = non_empty(t.drop_last());
        assert forall|p: Seq<char>| non_empty(t).contains(p) implies t.contains(p) by {
            let i = choose|i: int| 0 <= i < non_empty(t).len() && non_empty(t)[i] == p;
            if i < r.len() {
                assert(r.contains(p));
                assert(t.drop_last().contains(p));
                let j = choose|j: int| 0 <= j < t.drop_last().len() && t.drop_last()[j] == p;
                assert(t[j] == p);
            } else {
                assert(t[t.len() - 1] == p);
            }
        }
    }
}

/// Joining pieces that hold no delimiter loses nothing.
proof fn lemma_join_injective(t1: Seq<Seq<char>>, t2: Seq<Seq<char>>)
    requires
        t1.len() >= 1,
        t2.len() >= 1,
        delimiter_free_at(t1),
        delimiter_free_at(t2),
        join_with(t1, seq![KEY_DELIMITER]) == join_with(t2, seq![KEY_DELIMITER]),
    ensures
        t1 == t2,
    decreases t1.len(),
{
    let d = seq![KEY_DELIMITER];
    let j = join_with(t1, d);
    let n = j.len();
    if t1.len() == 1 && t2.len() == 1 {
        assert(t1 =~= t2);
    } else if t1.len() == 1 {
        let k = join_with(t2.drop_last(), d).len() as int;
        assert(j[k] == KEY_DELIMITER);
        assert(t1[0][k] == KEY_DELIMITER);
    } else if t2.len() == 1 {
        let k = join_with(t1.drop_last(), d).len() as int;
        assert(j[k] == KEY_DELIMITER);
        assert(t2[0][k] == KEY_DELIMITER);
    } else {
        let l1 = t1.last();
        let l2 = t2.last();
        let h1 = join_with(t1.drop_last(), d);
        let h2 = join_with(t2.drop_last(), d);
        assert(j == h1 + d + l1);
        assert(j == h2 + d + l2);
        if l1.len() < l2.len() {
            let p = n - l1.len() - 1;
            assert(j[p] == KEY_DELIMITER);
            assert(t2[t2.len() - 1][l2.len() - l1.len() - 1] == KEY_DELIMITER);
        } else if l2.len() < l1.len() {
            let p = n - l2.len() - 1;
            assert(j[p] == KEY_DELIMITER);
            assert(t1[t1.len() - 1][l1.len() - l2.len() - 1] == KEY_DELIMITER);
        } else {
            assert(l1 =~= j.subrange(n - l1.len(), n as int));
            assert(l2 =~= j.subrange(n - l2.len(), n as int));
            assert(h1 =~= j.subrange(0, n - l1.len() - 1));
            assert(h2 =~= j.subrange(0, n - l2.len() - 1));
            assert(delimiter_free_at(t1.drop_last()));
            assert(delimiter_free_at(t2.drop_last()));
            lemma_join_injective(t1.drop_last(), t2.drop_last());
            assert(t1 =~= t1.drop_last().push(l1));
            assert(t2 =~= t2.drop_last().push(l2));
        }
    }
}

/// Joining two non-empty runs of pieces puts one delimiter between them.
proof fn lemma_join_append(t: Seq<Seq<char>>, u: Seq<Seq<char>>)
    requires
        t.len() >= 1,
        u.len() >= 1,
    ensures
        join_with(t + u, seq![KEY_DELIMITER]) == join_with(t, seq![KEY_DELIMITER]) + seq![KEY_DELIMITER]
            + join_with(u, seq![KEY_DELIMITER]),
    decreases u.len(),
{
    let d = seq![KEY_DELIMITER];
    assert((t + u).drop_last() =~= t + u.drop_last());
    if u.len() > 1 {
        lemma_join_append(t, u.drop_last());
    } else {
        assert(t + u.drop_last() =~= t);
    }
}

/// The join of non-empty pieces starts with the first piece's first character
/// and ends with the last piece's last one.
proof fn lemma_join_ends(t: Seq<Seq<char>>)
    requires
        t.len() >= 1,
        all_non_empty(t),
    ensures
        join_with(t, seq![KEY_DELIMITER]).len() > 0,
        join_with(t, seq![KEY_DELIMITER])[0] == t[0][0],
        join_with(t, seq![KEY_DELIMITER]).last() == t.last().last(),
    decreases t.len(),
{
    if t.len() > 1 {
        assert(all_non_empty(t.drop_last()));
        lemma_join_ends(t.drop_last());
        assert(t[t.len() - 1].len() > 0);
    } else {
        assert(t[0].len() > 0);
    }
}

/// The parameters of `query` in key order, with what the key needs of them.
proof fn lemma_sorted_params(query: Seq<char>)
    ensures
        sorted_params(query).to_multiset() == query_params(query).to_multiset(),
        sorted_by(sorted_params(query), token_order()),
        sorted_params(query).len() == query_params(query).len(),
        all_non_empty(sorted_params(query)),
        free_of_delimiter(query_params(query)) ==> free_of_delimiter(sorted_params(query)),
{
    let t = query_params(query);
    lemma_token_order_total();
    t.lemma_sort_by_ensures(token_order());
    lemma_non_empty(split_on(query, QUERY_SEPARATOR));
    let s = sorted_params(query);
    assert(s.to_multiset().len() == t.to_multiset().len());
    assert forall|i: int| 0 <= i < s.len() implies #[trigger] s[i].len() > 0 by {
        assert(s.to_multiset().count(s[i]) > 0);
        assert(t.contains(s[i]));
        let j = choose|j: int| 0 <= j < t.len() && t[j] == s[i];
    }
    if free_of_delimiter(t) {
        assert forall|p: Seq<char>| s.contains(p) implies !p.contains(KEY_DELIMITER) by {
            assert(s.to_multiset().count(p) > 0);
            assert(t.contains(p));
        }
    }
}

/// Requests to the same path whose query strings hold the same parameters, in
/// whatever order, have the same cache key.
pub proof fn lemma_key_ignores_parameter_order(path: Seq<char>, q1: Seq<char>, q2: Seq<char>)
    requires
        query_params(q1).to_multiset() == query_params(q2).to_multiset(),
    ensures
        cache_key(path, q1) == cache_key(path, q2),
{
    lemma_token_order_total();
    lemma_sorted_params(q1);
    lemma_sorted_params(q2);
    vstd::seq_lib::lemma_sorted_unique(sorted_params(q1), sorted_params(q2), token_order());
}

/// A request has no key exactly when it has neither path segments nor query
/// parameters.
pub proof fn lemma_key_empty_iff_no_data(path: Seq<char>, query: Seq<char>)
    ensures
        cache_key(path, query).len() == 0 <==> (path_segments(path).len() == 0
            && query_params(query).len() == 0),
{
    lemma_sorted_params(query);
    lemma_non_empty(split_on(path, '/'));
    let all = path_segments(path) + sorted_params(query);
    if all.len() > 0 {
        assert(all_non_empty(all)) by {
            assert forall|i: int| 0 <= i < all.len() implies #[trigger] all[i].len() > 0 by {
                if i >= path_segments(path).len() {
                    assert(all[i] == sorted_params(query)[i - path_segments(path).len()]);
                }
            }
        }
        lemma_join_ends(all);
    }
}

/// A key neither starts nor ends with the delimiter where no segment and no
/// parameter holds it.
pub proof fn lemma_key_has_no_outer_delimiter(path: Seq<char>, query: Seq<char>)
    requires
        free_of_delimiter(path_segments(path)),
        free_of_delimiter(query_params(query)),
    ensures
        cache_key(path, query).len() > 0 ==> cache_key(path, query)[0] != KEY_DELIMITER
            && cache_key(path, query).last() != KEY_DELIMITER,
{
    lemma_sorted_params(query);
    lemma_non_empty(split_on(path, '/'));
    let g = path_segments(path);
    let s = sorted_params(query);
    let all = g + s;
    if all.len() > 0 {
        assert forall|i: int| 0 <= i < all.len() implies #[trigger] all[i].len() > 0 && !all[i].contains(
            KEY_DELIMITER,
        ) by {
            if i >= g.len() {
                assert(all[i] == s[i - g.len()]);
                assert(s.contains(s[i - g.len()]));
            } else {
                assert(g.contains(g[i]));
            }
        }
        lemma_join_ends(all);
        let first = all[0];
        let last = all[all.len() - 1];
        if first[0] == KEY_DELIMITER {
            assert(first.contains(KEY_DELIMITER));
        }
        if last[last.len() - 1] == KEY_DELIMITER {
            assert(last.contains(KEY_DELIMITER));
        }
    }
}

/// Requests to the same path whose query strings differ in their parameters,
/// not only in their order, have different cache keys, wherever no parameter
/// holds the key delimiter.
pub proof fn lemma_key_tells_parameters_apart(path: Seq<char>, q1: Seq<char>, q2: Seq<char>)
    requires
        query_params(q1).to_multiset() != query_params(q2).to_multiset(),
        free_of_delimiter(query_params(q1)),
        free_of_delimiter(query_params(q2)),
    ensures
        cache_key(path, q1) != cache_key(path, q2),
{
    let d = seq![KEY_DELIMITER];
    lemma_sorted_params(q1);
    lemma_sorted_params(q2);
    let g = path_segments(path);
    let s1 = sorted_params(q1);
    let s2 = sorted_params(q2);
    lemma_free_at(s1);
    lemma_free_at(s2);
    assert(s1 != s2);
    if s1.len() == 0 && s2.len() == 0 {
        assert(s1 =~= s2);
    }
    if cache_key(path, q1) == cache_key(path, q2) {
        if g.len() == 0 {
            assert(g + s1 =~= s1);
            assert(g + s2 =~= s2);
            if s1.len() == 0 {
                lemma_join_ends(s2);
            } else if s2.len() == 0 {
                lemma_join_ends(s1);
            } else {
                lemma_join_injective(s1, s2);
            }
        } else {
            let jg = join_with(g, d);
            if s1.len() == 0 {
                assert(g + s1 =~= g);
                lemma_join_append(g, s2);
            } else if s2.len() == 0 {
                assert(g + s2 =~= g);
                lemma_join_append(g, s1);
            } else {
                lemma_join_append(g, s1);
                lemma_join_append(g, s2);
                let j1 = join_with(s1, d);
                let j2 = join_with(s2, d);
                assert(j1 =~= (jg + d + j1).subrange(jg.len() as int + 1, (jg + d + j1).len() as int));
                assert(j2 =~= (jg + d + j2).subrange(jg.len() as int + 1, (jg + d + j2).len() as int));
                lemma_join_injective(s1, s2);
            }
        }
    }
}

} // verus!
