//! Log files: how they are named and which old ones are removed. Listing and
//! deleting files, and reading their modification times (milliseconds since the Unix
//! epoch), is the caller's part.

use crate::text::{owned, push_str};
use vstd::prelude::*;
use vstd::relations::injective_on;
use vstd::set_lib::{lemma_int_range, lemma_map_size, lemma_subset_equality, set_int_range};

verus! {

/// The number of log files kept.
pub const MAX_LOG_FILES: usize = 7;

/// The name of the log file opened at the local time written `timestamp`.
pub open spec fn log_file_name_text(timestamp: Seq<char>) -> Seq<char> {
    "nexa_"@ + timestamp + ".log"@
}

/// The name of a log file, as [`log_file_name_text`] gives it.
pub fn log_file_name(timestamp: &str) -> (r: String)
    ensures
        r@ == log_file_name_text(timestamp@),
{
    let mut r = owned("nexa_");
    push_str(&mut r, timestamp);
    push_str(&mut r, ".log");
    r
}

/// Whether file `j` comes before file `i` when the files are ordered newest first,
/// files of the same age keeping their listed order.
pub open spec fn ahead_of(t: Seq<u64>, j: int, i: int) -> bool {
    t[j] > t[i] || (t[j] == t[i] && j < i)
}

/// The number of files ahead of file `i` among the first `n`.
pub open spec fn rank_upto(t: Seq<u64>, i: int, n: int) -> nat
    decreases n,
{
    if n <= 0 {
        0
    } else {
        rank_upto(t, i, n - 1) + if ahead_of(t, n - 1, i) {
            1nat
        } else {
            0nat
        }
    }
}

/// The position of file `i` when the files are ordered newest first.
pub open spec fn rank(t: Seq<u64>, i: int) -> nat {
    rank_upto(t, i, t.len() as int)
}

/// The files to remove: those not among the [`MAX_LOG_FILES`] newest, as positions in
/// the listing, in listed order.
pub open spec fn removed(t: Seq<u64>, n: int) -> Seq<usize>
    decreases n,
{
    if n <= 0 {
        Seq::empty()
    } else if rank(t, n - 1) >= MAX_LOG_FILES {
        removed(t, n - 1).push((n - 1) as usize)
    } else {
        removed(t, n - 1)
    }
}

fn rank_of(modified: &Vec<u64>, i: usize) -> (r: usize)
    requires
        i < modified@.len(),
    ensures
        r == rank(modified@, i as int),
{
    let mut r: usize = 0;
    let mut j: usize = 0;
    while j < modified.len()
        invariant
            i < modified@.len(),
            j <= modified@.len(),
            r == rank_upto(modified@, i as int, j as int),
            r <= j,
        decreases modified@.len() - j,
    {
        if modified[j] > modified[i] || (modified[j] == modified[i] && j < i) {
            r = r + 1;
        }
        j = j + 1;
    }
    r
}

/// The positions of the log files to remove, given each file's modification time in
/// listed order: all but the [`MAX_LOG_FILES`] newest.
pub fn logs_to_remove(modified: &Vec<u64>) -> (r: Vec<usize>)
    ensures
        r@ == removed(modified@, modified@.len() as int),
{
    let mut r: Vec<usize> = Vec::new();
    let mut i: usize = 0;
    while i < modified.len()
        invariant
            i <= modified@.len(),
            r@ == removed(modified@, i as int),
        decreases modified@.len() - i,
    {
        if rank_of(modified, i) >= MAX_LOG_FILES {
            r.push(i);
        }
        i = i + 1;
    }
    r
}

proof fn lemma_ahead_transitive(t: Seq<u64>, k: int, j: int, i: int)
    requires
        0 <= k < t.len(),
        0 <= j < t.len(),
        0 <= i < t.len(),
        ahead_of(t, k, j),
        ahead_of(t, j, i),
    ensures
        ahead_of(t, k, i),
{
}

/// A file with `j` ahead of it has more files ahead of it than `j` has, counting
/// among the first `m`.
proof fn lemma_rank_upto_strict(t: Seq<u64>, j: int, i: int, m: int)
    requires
        0 <= j < t.len(),
        0 <= i < t.len(),
        0 <= m <= t.len(),
        ahead_of(t, j, i),
    ensures
        rank_upto(t, j, m) + (if j < m { 1int } else { 0int }) <= rank_upto(t, i, m),
    decreases m,
{
    if m > 0 {
        lemma_rank_upto_strict(t, j, i, m - 1);
        if ahead_of(t, m - 1, j) {
            lemma_ahead_transitive(t, m - 1, j, i);
        }
    }
}

/// No file is ahead of itself, so at most `m - 1` of the first `m` files are ahead of
/// one of them.
proof fn lemma_rank_upto_bound(t: Seq<u64>, i: int, m: int)
    requires
        0 <= i < t.len(),
        0 <= m <= t.len(),
    ensures
        rank_upto(t, i, m) + (if i < m { 1int } else { 0int }) <= m,
    decreases m,
{
    if m > 0 {
        lemma_rank_upto_bound(t, i, m - 1);
    }
}

/// Files are removed exactly at the positions whose rank is [`MAX_LOG_FILES`] or more.
proof fn lemma_removed_members(t: Seq<u64>, m: int)
    requires
        0 <= m <= t.len(),
        t.len() <= usize::MAX,
    ensures
        forall|k: int| 0 <= k < removed(t, m).len() ==> {
            let p = #[trigger] removed(t, m)[k] as int;
            0 <= p < m && rank(t, p) >= MAX_LOG_FILES
        },
        forall|p: int| 0 <= p < m && rank(t, p) >= MAX_LOG_FILES ==> #[trigger] removed(t, m).contains(p as usize),
    decreases m,
{
    if m > 0 {
        lemma_removed_members(t, m - 1);
        let prev = removed(t, m - 1);
        if rank(t, m - 1) >= MAX_LOG_FILES {
            assert forall|p: int| 0 <= p < m && rank(t, p) >= MAX_LOG_FILES implies #[trigger] removed(t, m).contains(
                p as usize,
            ) by {
                if p < m - 1 {
                    assert(prev.contains(p as usize));
                    let k = choose|k: int| 0 <= k < prev.len() && prev[k] == p as usize;
                    assert(removed(t, m)[k] == p as usize);
                } else {
                    assert(removed(t, m)[prev.len() as int] == p as usize);
                }
            }
        } else {
            assert forall|p: int| 0 <= p < m && rank(t, p) >= MAX_LOG_FILES implies #[trigger] removed(t, m).contains(
                p as usize,
            ) by {
                assert(prev.contains(p as usize));
            }
        }
    }
}

/// Every log file kept is at least as new as every log file removed: cleaning up keeps
/// the newest files.
pub proof fn law_keeps_newest(t: Seq<u64>, kept: int, gone: int)
    requires
        0 <= kept < t.len(),
        0 <= gone < t.len(),
        t.len() <= usize::MAX,
        removed(t, t.len() as int).contains(gone as usize),
        !removed(t, t.len() as int).contains(kept as usize),
    ensures
        t[kept] >= t[gone],
{
    lemma_removed_members(t, t.len() as int);
    let k = choose|k: int| 0 <= k < removed(t, t.len() as int).len() && removed(t, t.len() as int)[k] == gone as usize;
    assert(removed(t, t.len() as int)[k] as int == gone);
    assert(rank(t, gone) >= MAX_LOG_FILES);
    assert(rank(t, kept) < MAX_LOG_FILES);
    if t[gone] > t[kept] {
        lemma_rank_upto_strict(t, gone, kept, t.len() as int);
    }
}

/// The positions among the first `m` whose rank is at least `k`.
spec fn ranked_from(t: Seq<u64>, m: int, k: int) -> Set<int> {
    Set::new(|p: int| 0 <= p < m && rank(t, p) >= k)
}

proof fn lemma_removed_len(t: Seq<u64>, m: int)
    requires
        0 <= m <= t.len(),
    ensures
        ranked_from(t, m, MAX_LOG_FILES as int).finite(),
        removed(t, m).len() == ranked_from(t, m, MAX_LOG_FILES as int).len(),
    decreases m,
{
    let k = MAX_LOG_FILES as int;
    if m == 0 {
        assert(ranked_from(t, m, k) =~= Set::empty());
    } else {
        lemma_removed_len(t, m - 1);
        if rank(t, m - 1) >= MAX_LOG_FILES {
            assert(ranked_from(t, m, k) =~= ranked_from(t, m - 1, k).insert(m - 1));
        } else {
            assert(ranked_from(t, m, k) =~= ranked_from(t, m - 1, k));
        }
    }
}

/// Of two different files, one is ahead of the other.
proof fn lemma_ranks_differ(t: Seq<u64>, i: int, j: int)
    requires
        0 <= i < t.len(),
        0 <= j < t.len(),
        i != j,
    ensures
        rank(t, i) != rank(t, j),
{
    let n = t.len() as int;
    if ahead_of(t, j, i) {
        lemma_rank_upto_strict(t, j, i, n);
    } else {
        assert(ahead_of(t, i, j));
        lemma_rank_upto_strict(t, i, j, n);
    }
}

/// Whether some file has rank `v`.
spec fn has_rank(t: Seq<u64>, v: int) -> bool {
    exists|i: int| 0 <= i < t.len() && #[trigger] rank(t, i) == v
}

/// The ranks of the files are exactly the positions `0..n`, each taken once.
proof fn lemma_ranks_onto(t: Seq<u64>)
    ensures
        forall|v: int| 0 <= v < t.len() ==> #[trigger] has_rank(t, v),
{
    let n = t.len() as int;
    let r = set_int_range(0, n);
    let f = |i: int| rank(t, i) as int;
    lemma_int_range(0, n);
    assert forall|x1: int, x2: int| r.contains(x1) && r.contains(x2) && #[trigger] f(x1) == #[trigger] f(x2) implies x1
        == x2 by {
        if x1 != x2 {
            lemma_ranks_differ(t, x1, x2);
        }
    }
    assert(injective_on(f, r));
    let img = r.map(f);
    lemma_map_size(r, img, f);
    assert forall|v: int| img.contains(v) implies r.contains(v) by {
        let i = choose|i: int| r.contains(i) && v == f(i);
        lemma_rank_upto_bound(t, i, n);
    }
    lemma_subset_equality(img, r);
    assert forall|v: int| 0 <= v < n implies #[trigger] has_rank(t, v) by {
        assert(r.contains(v));
        assert(img.contains(v));
        let i = choose|i: int| r.contains(i) && v == f(i);
        assert(rank(t, i) == v);
    }
}

/// Cleaning up removes all but the [`MAX_LOG_FILES`] newest log files: as many files as
/// there are beyond that number, and none where there are no more.
pub proof fn law_keeps_at_most_max(t: Seq<u64>)
    ensures
        removed(t, t.len() as int).len() == if t.len() > MAX_LOG_FILES {
            t.len() - MAX_LOG_FILES
        } else {
            0
        },
{
    let n = t.len() as int;
    let k = MAX_LOG_FILES as int;
    lemma_removed_len(t, n);
    let big = ranked_from(t, n, k);
    if n <= k {
        assert forall|p: int| big.contains(p) implies false by {
            lemma_rank_upto_bound(t, p, n);
        }
        assert(big =~= Set::empty());
    } else {
        let f = |i: int| rank(t, i) as int;
        let target = set_int_range(k, n);
        lemma_int_range(k, n);
        lemma_ranks_onto(t);
        assert forall|x1: int, x2: int| big.contains(x1) && big.contains(x2) && #[trigger] f(x1) == #[trigger] f(x2)
            implies x1 == x2 by {
            if x1 != x2 {
                lemma_ranks_differ(t, x1, x2);
            }
        }
        assert forall|v: int| big.map(f).contains(v) <==> target.contains(v) by {
            if big.map(f).contains(v) {
                let i = choose|i: int| big.contains(i) && v == f(i);
                lemma_rank_upto_bound(t, i, n);
            }
            if target.contains(v) {
                assert(has_rank(t, v));
                let i = choose|i: int| 0 <= i < n && #[trigger] rank(t, i) == v;
                assert(big.contains(i));
            }
        }
        assert(big.map(f) =~= target);
        lemma_map_size(big, target, f);
    }
}

} // verus!
