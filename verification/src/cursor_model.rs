//! A model of cursor navigation and keyed seeking over one table: the
//! records stand in index order, and the cursor either stands on one of
//! them or has no current record.
//!
//! The model states the navigation and seek semantics that the cursor
//! protocol relies on, and proves the laws callers depend on: a full
//! forward scan visits every record exactly once in index order and then
//! ends; a seek for the nearest equal-or-greater key lands on the least
//! qualifying record, reports whether the match was exact, and fails —
//! distinguishably — only when no record qualifies.

use vstd::prelude::*;

verus! {

/// Position after moving to the first record of a table with `n` records:
/// none when the table is empty.
pub open spec fn model_first(n: nat) -> Option<nat> {
    if n == 0 {
        None
    } else {
        Some(0nat)
    }
}

/// Position after moving forward from record `pos` of `n`: none past the
/// last record, the end of iteration.
pub open spec fn model_next(n: nat, pos: nat) -> Option<nat>
    recommends
        pos < n,
{
    if pos + 1 < n {
        Some((pos + 1) as nat)
    } else {
        None
    }
}

/// The positions a forward scan visits from position `from` onwards.
pub open spec fn spec_scan_from(n: nat, from: nat) -> Seq<nat>
    decreases n - from,
{
    if from >= n {
        Seq::empty()
    } else {
        seq![from] + spec_scan_from(n, from + 1)
    }
}

/// The positions visited by moving to the first record and then forward
/// until no record remains.
pub open spec fn spec_full_scan(n: nat) -> Seq<nat> {
    match model_first(n) {
        None => Seq::empty(),
        Some(p) => spec_scan_from(n, p),
    }
}

/// A scan from `from` visits exactly the positions from `from` on, in
/// order.
proof fn lemma_scan_from(n: nat, from: nat)
    requires
        from <= n,
    ensures
        spec_scan_from(n, from).len() == n - from,
        forall|i: int| 0 <= i < n - from ==> spec_scan_from(n, from)[i] == from + i,
    decreases n - from,
{
    if from < n {
        lemma_scan_from(n, (from + 1) as nat);
    }
}

/// A full forward scan of a table with `n` records visits every record
/// exactly once, in index order; an empty table yields no visit at all,
/// the scan ending immediately.
pub proof fn lemma_full_scan_visits_each_once(n: nat)
    ensures
        spec_full_scan(n).len() == n,
        forall|i: int| 0 <= i < n ==> spec_full_scan(n)[i] == i,
        n == 0 ==> spec_full_scan(n) =~= Seq::<nat>::empty(),
{
    if n > 0 {
        lemma_scan_from(n, 0);
    }
}

/// Whether the keys stand in strictly increasing index order: a
/// monotonically keyed table.
pub open spec fn spec_sorted(keys: Seq<u64>) -> bool {
    forall|i: int, j: int| 0 <= i < j < keys.len() ==> keys[i] < keys[j]
}

/// The least index at or after `from` whose key is at least `key`.
pub open spec fn spec_lower_bound_from(keys: Seq<u64>, key: u64, from: nat) -> Option<nat>
    decreases keys.len() - from,
{
    if from >= keys.len() {
        None
    } else if keys[from as int] >= key {
        Some(from)
    } else {
        spec_lower_bound_from(keys, key, from + 1)
    }
}

/// Where a seek for the nearest equal-or-greater key lands: the least
/// index whose key is at least `key`, or none when every key is below it.
pub open spec fn spec_seek_ge(keys: Seq<u64>, key: u64) -> Option<nat> {
    spec_lower_bound_from(keys, key, 0)
}

/// What the lower-bound search guarantees from any starting point.
proof fn lemma_lower_bound_from(keys: Seq<u64>, key: u64, from: nat)
    requires
        from <= keys.len(),
    ensures
        match spec_lower_bound_from(keys, key, from) {
            Some(i) => {
                &&& from <= i < keys.len()
                &&& keys[i as int] >= key
                &&& forall|j: int| from <= j < i ==> keys[j] < key
            },
            None => forall|j: int| from <= j < keys.len() ==> keys[j] < key,
        },
    decreases keys.len() - from,
{
    if from < keys.len() && keys[from as int] < key {
        lemma_lower_bound_from(keys, key, (from + 1) as nat);
    }
}

/// Seek semantics for the nearest equal-or-greater key over a
/// monotonically keyed table: when any record qualifies, the seek lands on
/// the least one, with an inexact match exactly when the sought key is
/// absent — in particular, a sought key absent from a table that still
/// holds a greater key lands on that nearest greater key with an inexact
/// match; when no record qualifies, the seek reports no position at all,
/// an outcome distinguishable from an inexact match.
pub proof fn lemma_seek_ge_semantics(keys: Seq<u64>, key: u64)
    requires
        spec_sorted(keys),
    ensures
        match spec_seek_ge(keys, key) {
            Some(i) => {
                &&& i < keys.len()
                &&& keys[i as int] >= key
                &&& forall|j: int| 0 <= j < i ==> keys[j] < key
                &&& (keys[i as int] == key <==> keys.contains(key))
            },
            None => !keys.contains(key) && forall|j: int|
                0 <= j < keys.len() ==> #[trigger] keys[j] < key,
        },
{
    lemma_lower_bound_from(keys, key, 0);
    match spec_seek_ge(keys, key) {
        Some(i) => {
            if keys[i as int] == key {
                assert(keys.contains(key));
            }
            if keys.contains(key) {
                let w = choose|w: int| 0 <= w < keys.len() && keys[w] == key;
                if w < i {
                    assert(keys[w] < key);
                } else if w > i {
                    assert(keys[i as int] < keys[w]);
                }
            }
        },
        None => {
            if keys.contains(key) {
                let w = choose|w: int| 0 <= w < keys.len() && keys[w] == key;
                assert(keys[w] < key);
            }
        },
    }
}

/// Run the equal-or-greater seek over a model table held as a sorted key
/// vector: the least index holding a key at least `key`, or none.  The
/// returned flag says whether the match was exact.
pub fn seek_ge_model(keys: &Vec<u64>, key: u64) -> (r: Option<(usize, bool)>)
    ensures
        match r {
            Some((i, exact)) => spec_seek_ge(keys@, key) == Some(i as nat) && exact == (keys@[i as int] == key),
            None => spec_seek_ge(keys@, key) is None,
        },
{
    let n = keys.len();
    let mut i: usize = 0;
    while i < n
        invariant
            i <= n,
            n == keys@.len(),
            spec_lower_bound_from(keys@, key, 0) == spec_lower_bound_from(keys@, key, i as nat),
        decreases n - i,
    {
        if keys[i] >= key {
            return Some((i, keys[i] == key));
        }
        i = i + 1;
    }
    None
}

/// Run the full forward scan over a model table with `n` records,
/// collecting the visited positions.
pub fn scan_model(n: usize) -> (r: Vec<usize>)
    ensures
        r@.len() == spec_full_scan(n as nat).len(),
        forall|i: int| 0 <= i < r@.len() ==> r@[i] == spec_full_scan(n as nat)[i],
{
    proof {
        lemma_full_scan_visits_each_once(n as nat);
    }
    let mut r: Vec<usize> = Vec::new();
    let mut pos: usize = 0;
    while pos < n
        invariant
            pos <= n,
            r@.len() == pos,
            forall|i: int| 0 <= i < pos ==> r@[i] == i,
        decreases n - pos,
    {
        r.push(pos);
        pos = pos + 1;
    }
    r
}

} // verus!
