//! Token-selection policy: top-K truncation of a score row, then the
//! highest-ranked entry of the truncated set.
//!
//! Entries are ranked by score key, highest first; among equal scores the
//! lower vocabulary index ranks first.

use vstd::prelude::*;
use vstd::seq_lib::seq_to_set_is_finite;
use vstd::set_lib::{lemma_int_range, lemma_len_subset, set_int_range};

verus! {

/// Entry `i` of `s` ranks ahead of entry `j`.
pub open spec fn ranks_before(s: Seq<u32>, i: int, j: int) -> bool {
    s[i] > s[j] || (s[i] == s[j] && i < j)
}

/// Entry `i` ranks ahead of every other entry of `s`.
pub open spec fn is_best(s: Seq<u32>, i: int) -> bool {
    &&& 0 <= i < s.len()
    &&& forall|j: int| 0 <= j < s.len() && j != i ==> ranks_before(s, i, j)
}

/// The best-ranked entry among the first `n` entries of `s`.
pub open spec fn best_in_prefix(s: Seq<u32>, n: nat) -> int
    decreases n,
{
    if n <= 1 {
        0
    } else {
        let b = best_in_prefix(s, (n - 1) as nat);
        if s[n - 1] > s[b] {
            n - 1
        } else {
            b
        }
    }
}

/// The entry that the selection policy picks: the first index of the
/// highest score.
pub open spec fn best_index(s: Seq<u32>) -> int {
    best_in_prefix(s, s.len())
}

/// `r` lists the `min(k, |s|)` best-ranked entries of `s`, best first.
pub open spec fn is_top_k(s: Seq<u32>, k: nat, r: Seq<usize>) -> bool {
    &&& r.len() == (if k < s.len() { k } else { s.len() })
    &&& forall|a: int| 0 <= a < r.len() ==> r[a] < s.len()
    &&& forall|a: int, b: int|
        0 <= a < b < r.len() ==> ranks_before(s, r[a] as int, r[b] as int)
    &&& forall|a: int, j: int|
        0 <= a < r.len() && 0 <= j < s.len() && !r.contains(j as usize) ==> ranks_before(
            s,
            r[a] as int,
            j,
        )
}

/// Entry `i` ranks after the last entry chosen so far in `r`.
spec fn follows(s: Seq<u32>, r: Seq<usize>, i: int) -> bool {
    r.len() == 0 || ranks_before(s, r.last() as int, i)
}

proof fn lemma_best_in_prefix(s: Seq<u32>, n: nat)
    requires
        1 <= n <= s.len(),
    ensures
        0 <= best_in_prefix(s, n) < n,
        forall|j: int|
            0 <= j < n && j != best_in_prefix(s, n) ==> ranks_before(s, best_in_prefix(s, n), j),
    decreases n,
{
    if n > 1 {
        let b = best_in_prefix(s, (n - 1) as nat);
        lemma_best_in_prefix(s, (n - 1) as nat);
        assert forall|j: int| 0 <= j < n && j != best_in_prefix(s, n) implies ranks_before(
            s,
            best_in_prefix(s, n),
            j,
        ) by {
            if j < n - 1 && j != b {
                assert(ranks_before(s, b, j));
            }
        }
    }
}

/// The policy's pick is the unique best-ranked entry.
pub proof fn lemma_best_index(s: Seq<u32>)
    requires
        s.len() > 0,
    ensures
        is_best(s, best_index(s)),
        forall|i: int| is_best(s, i) ==> i == best_index(s),
{
    lemma_best_in_prefix(s, s.len());
    let b = best_index(s);
    assert forall|i: int| is_best(s, i) implies i == b by {
        if i != b {
            assert(ranks_before(s, b, i));
            assert(ranks_before(s, i, b));
        }
    }
}

/// A sequence of distinct indices below `n` that is shorter than `n` misses
/// one of them.
proof fn lemma_some_index_unused(r: Seq<usize>, n: usize)
    requires
        forall|a: int, b: int| 0 <= a < b < r.len() ==> r[a] != r[b],
        forall|a: int| 0 <= a < r.len() ==> r[a] < n,
        r.len() < n,
    ensures
        exists|j: usize| j < n && !r.contains(j),
{
    let ri = r.map_values(|x: usize| x as int);
    assert(ri.no_duplicates()) by {
        assert forall|a: int, b: int|
            0 <= a < ri.len() && 0 <= b < ri.len() && a != b implies ri[a] != ri[b] by {
            if a < b {
                assert(r[a] != r[b]);
            } else {
                assert(r[b] != r[a]);
            }
        }
    }
    ri.unique_seq_to_set();
    seq_to_set_is_finite(ri);
    lemma_int_range(0, n as int);
    if forall|j: usize| j < n ==> r.contains(j) {
        assert(set_int_range(0, n as int).subset_of(ri.to_set())) by {
            assert forall|x: int| set_int_range(0, n as int).contains(x) implies ri.to_set().contains(
                x,
            ) by {
                assert(r.contains(x as usize));
                let a = choose|a: int| 0 <= a < r.len() && r[a] == x as usize;
                assert(ri[a] == x);
            }
        }
        lemma_len_subset(set_int_range(0, n as int), ri.to_set());
    }
}

/// The `min(k, |scores|)` best-ranked entries of `scores`, best first.
pub fn top_k(scores: &Vec<u32>, k: usize) -> (r: Vec<usize>)
    ensures
        is_top_k(scores@, k as nat, r@),
{
    let n = scores.len();
    let m = if k < n {
        k
    } else {
        n
    };
    let mut r: Vec<usize> = Vec::new();
    while r.len() < m
        invariant
            n == scores@.len(),
            m == (if k < n { k } else { n }),
            r.len() <= m,
            forall|a: int| 0 <= a < r.len() ==> r[a] < n,
            forall|a: int, b: int|
                0 <= a < b < r.len() ==> ranks_before(scores@, r[a] as int, r[b] as int),
            forall|a: int, j: int|
                0 <= a < r.len() && 0 <= j < n && !r@.contains(j as usize) ==> ranks_before(
                    scores@,
                    r[a] as int,
                    j,
                ),
        decreases m - r.len(),
    {
        let ghost s = scores@;
        let ghost old_r = r@;
        proof {
            assert forall|a: int, b: int| 0 <= a < b < r.len() implies r[a] != r[b] by {
                assert(ranks_before(scores@, r[a] as int, r[b] as int));
            }
            lemma_some_index_unused(r@, n);
        }
        let mut best: usize = n;
        let mut j: usize = 0;
        while j < n
            invariant
                n == scores@.len(),
                s == scores@,
                old_r == r@,
                forall|a: int| 0 <= a < r.len() ==> r[a] < n,
                j <= n,
                best == n || (best < j && follows(s, old_r, best as int)),
                forall|i: int|
                    0 <= i < j && follows(s, old_r, i) ==> best < n && (i == best || ranks_before(
                        s,
                        best as int,
                        i,
                    )),
            decreases n - j,
        {
            let fits = if r.len() == 0 {
                true
            } else {
                let last = r[r.len() - 1];
                scores[j] < scores[last] || (scores[j] == scores[last] && j > last)
            };
            if fits && (best == n || scores[j] > scores[best]) {
                best = j;
            }
            j += 1;
        }
        proof {
            let j0 = choose|j0: usize| j0 < n && !old_r.contains(j0);
            if old_r.len() > 0 {
                assert(ranks_before(s, old_r[old_r.len() - 1] as int, j0 as int));
            }
            assert(follows(s, old_r, j0 as int));
        }
        r.push(best);
        proof {
            let len = old_r.len() as int;
            assert forall|a: int, b: int| 0 <= a < b < r.len() implies ranks_before(
                s,
                r[a] as int,
                r[b] as int,
            ) by {
                if b == len && a < len - 1 {
                    assert(ranks_before(s, old_r[a] as int, old_r[len - 1] as int));
                }
            }
            assert forall|a: int, i: int|
                0 <= a < r.len() && 0 <= i < n && !r@.contains(i as usize) implies ranks_before(
                s,
                r[a] as int,
                i,
            ) by {
                assert(r@[len] == best);
                if exists|c: int| 0 <= c < len && old_r[c] == i as usize {
                    let c = choose|c: int| 0 <= c < len && old_r[c] == i as usize;
                    assert(r@[c] == i as usize);
                }
                assert(!old_r.contains(i as usize));
                if len > 0 {
                    assert(ranks_before(s, old_r[len - 1] as int, i));
                }
                assert(follows(s, old_r, i));
            }
        }
    }
    r
}

/// The next token under the top-K policy: the best-ranked entry of
/// `scores`, whatever `k` is.
pub fn select_token(scores: &Vec<u32>, k: usize) -> (t: usize)
    requires
        scores@.len() > 0,
        k >= 1,
    ensures
        t as int == best_index(scores@),
        is_best(scores@, t as int),
{
    let top = top_k(scores, k);
    let t = top[0];
    proof {
        let s = scores@;
        assert(s.len() == scores.len());
        assert forall|j: int| 0 <= j < s.len() && j != t implies ranks_before(s, t as int, j) by {
            if top@.contains(j as usize) {
                let b = choose|b: int| 0 <= b < top@.len() && top@[b] == j as usize;
                assert(b != 0);
                assert(ranks_before(s, top@[0] as int, top@[b] as int));
            } else {
                assert(ranks_before(s, top@[0] as int, j));
            }
        }
        assert(is_best(s, t as int));
        lemma_best_index(s);
    }
    t
}

/// Top-K truncation never changes the pick: for every `k >= 1` the first
/// entry of the top-K list is the policy's pick, and where one entry has the
/// strictly highest score it is that entry.
pub proof fn law_selection_independent_of_k(s: Seq<u32>, k: nat, r: Seq<usize>, i: int)
    requires
        is_top_k(s, k, r),
        k >= 1,
        s.len() <= usize::MAX,
        0 <= i < s.len(),
        forall|j: int| 0 <= j < s.len() && j != i ==> s[i] > s[j],
    ensures
        r[0] == i,
        best_index(s) == i,
{
    lemma_best_index(s);
    assert(is_best(s, i));
    if r[0] != i {
        if r.contains(i as usize) {
            let b = choose|b: int| 0 <= b < r.len() && r[b] == i as usize;
            assert(ranks_before(s, r[0] as int, r[b] as int));
        } else {
            assert(ranks_before(s, r[0] as int, i));
        }
    }
}

} // verus!
