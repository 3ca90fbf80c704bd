//! Facts about sequences in which a key occurs at most once.

use vstd::prelude::*;

verus! {

/// In a sequence without duplicates, the place where a key stands is the
/// place that `index_of` names.
pub proof fn lemma_index_of_unique<K>(keys: Seq<K>, k: K, i: int)
    requires
        keys.no_duplicates(),
        0 <= i < keys.len(),
        keys[i] == k,
    ensures
        keys.contains(k),
        keys.index_of(k) == i,
{
    assert(keys.contains(k));
    let j = keys.index_of(k);
    assert(0 <= j < keys.len() && keys[j] == k);
}

/// A key that stands nowhere in a sequence is not contained in it.
pub proof fn lemma_absent<K>(keys: Seq<K>, k: K)
    requires
        forall|j: int| 0 <= j < keys.len() ==> keys[j] != k,
    ensures
        !keys.contains(k),
{
}

/// Adding a key that is not yet there keeps a sequence free of duplicates.
pub proof fn lemma_push_unique<K>(keys: Seq<K>, k: K)
    requires
        keys.no_duplicates(),
        !keys.contains(k),
    ensures
        keys.push(k).no_duplicates(),
{
    assert forall|i: int, j: int|
        0 <= i < keys.push(k).len() && 0 <= j < keys.push(k).len() && i != j implies keys.push(k)[i]
        != keys.push(k)[j] by {
        if i < keys.len() && j < keys.len() {
        } else if i < keys.len() {
            assert(keys.contains(keys[i]));
        } else {
            assert(keys.contains(keys[j]));
        }
    }
}

/// Taking one key out keeps a sequence free of duplicates, and the key is gone.
pub proof fn lemma_remove_unique<K>(keys: Seq<K>, i: int)
    requires
        keys.no_duplicates(),
        0 <= i < keys.len(),
    ensures
        keys.remove(i).no_duplicates(),
        !keys.remove(i).contains(keys[i]),
        forall|k: K| k != keys[i] ==> (keys.remove(i).contains(k) <==> keys.contains(k)),
{
    let r = keys.remove(i);
    assert forall|a: int, b: int| 0 <= a < r.len() && 0 <= b < r.len() && a != b implies r[a]
        != r[b] by {
        let a0 = if a < i { a } else { a + 1 };
        let b0 = if b < i { b } else { b + 1 };
        assert(r[a] == keys[a0] && r[b] == keys[b0]);
    }
    assert forall|a: int| 0 <= a < r.len() implies r[a] != keys[i] by {
        let a0 = if a < i { a } else { a + 1 };
        assert(r[a] == keys[a0]);
    }
    assert forall|k: K| k != keys[i] implies (r.contains(k) <==> keys.contains(k)) by {
        if r.contains(k) {
            let a = choose|a: int| 0 <= a < r.len() && r[a] == k;
            let a0 = if a < i { a } else { a + 1 };
            assert(keys[a0] == k);
        }
        if keys.contains(k) {
            let a0 = choose|a: int| 0 <= a < keys.len() && keys[a] == k;
            let a = if a0 < i { a0 } else { a0 - 1 };
            assert(r[a] == k);
        }
    }
}

/// A subsequence of a sequence without duplicates has no duplicates.
pub proof fn lemma_subsequence_unique<K>(all: Seq<K>, part: Seq<K>, origin: Seq<int>)
    requires
        all.no_duplicates(),
        origin.len() == part.len(),
        forall|a: int| 0 <= a < part.len() ==> 0 <= #[trigger] origin[a] < all.len() && part[a] == all[origin[a]],
        forall|a: int, b: int| 0 <= a < b < origin.len() ==> origin[a] < origin[b],
    ensures
        part.no_duplicates(),
{
    assert forall|a: int, b: int| 0 <= a < part.len() && 0 <= b < part.len() && a != b implies part[a]
        != part[b] by {
        if a < b {
            assert(origin[a] < origin[b]);
        } else {
            assert(origin[b] < origin[a]);
        }
    }
}

/// The first `n` identifiers of a list without their repetitions, each at the
/// place of its first occurrence.
pub open spec fn distinct_upto(ids: Seq<u128>, n: nat) -> Seq<u128>
    decreases n,
{
    if n == 0 {
        Seq::empty()
    } else if distinct_upto(ids, (n - 1) as nat).contains(ids[n - 1]) {
        distinct_upto(ids, (n - 1) as nat)
    } else {
        distinct_upto(ids, (n - 1) as nat).push(ids[n - 1])
    }
}

/// A list of identifiers without its repetitions.
pub open spec fn distinct(ids: Seq<u128>) -> Seq<u128> {
    distinct_upto(ids, ids.len())
}

/// A list without its repetitions has no duplicates, holds exactly the
/// identifiers of the list, and is the list itself where that had none.
pub proof fn lemma_distinct(ids: Seq<u128>, n: nat)
    requires
        n <= ids.len(),
    ensures
        distinct_upto(ids, n).no_duplicates(),
        distinct_upto(ids, n).len() <= n,
        forall|k: u128|
            distinct_upto(ids, n).contains(k) <==> exists|i: int| 0 <= i < n && ids[i] == k,
        ids.no_duplicates() ==> distinct_upto(ids, n) == ids.subrange(0, n as int),
    decreases n,
{
    if n == 0 {
        assert(distinct_upto(ids, n) =~= ids.subrange(0, 0));
    } else {
        let prev = distinct_upto(ids, (n - 1) as nat);
        let this = distinct_upto(ids, n);
        lemma_distinct(ids, (n - 1) as nat);
        if !prev.contains(ids[n - 1]) {
            lemma_push_unique(prev, ids[n - 1]);
        }
        assert forall|k: u128| this.contains(k) <==> exists|i: int| 0 <= i < n && ids[i] == k by {
            if this.contains(k) {
                let j = choose|j: int| 0 <= j < this.len() && this[j] == k;
                if j < prev.len() {
                    assert(prev[j] == k);
                    assert(prev.contains(k));
                } else {
                    assert(ids[n - 1] == k);
                }
            }
            if exists|i: int| 0 <= i < n && ids[i] == k {
                let i = choose|i: int| 0 <= i < n && ids[i] == k;
                if i < n - 1 {
                    assert(prev.contains(k));
                    let j = choose|j: int| 0 <= j < prev.len() && prev[j] == k;
                    assert(this[j] == k);
                } else if prev.contains(k) {
                    let j = choose|j: int| 0 <= j < prev.len() && prev[j] == k;
                    assert(this[j] == k);
                } else {
                    assert(this[prev.len() as int] == k);
                }
            }
        }
        if ids.no_duplicates() {
            assert(prev == ids.subrange(0, n - 1));
            if prev.contains(ids[n - 1]) {
                let j = choose|j: int| 0 <= j < prev.len() && prev[j] == ids[n - 1];
                assert(ids[j] == ids[n - 1]);
            }
            assert(this =~= ids.subrange(0, n as int));
        }
    }
}

/// A list that loses nothing when its repetitions are dropped has none.
pub proof fn lemma_distinct_full(ids: Seq<u128>, n: nat)
    requires
        n <= ids.len(),
        distinct_upto(ids, n).len() == n,
    ensures
        distinct_upto(ids, n) == ids.subrange(0, n as int),
        ids.subrange(0, n as int).no_duplicates(),
    decreases n,
{
    lemma_distinct(ids, n);
    if n == 0 {
        assert(distinct_upto(ids, n) =~= ids.subrange(0, 0));
    } else {
        lemma_distinct(ids, (n - 1) as nat);
        lemma_distinct_full(ids, (n - 1) as nat);
        assert(distinct_upto(ids, n) =~= ids.subrange(0, n as int));
    }
}

/// Whether no identifier occurs twice in a list.
pub fn all_distinct(ids: &Vec<u128>) -> (r: bool)
    ensures
        r == ids@.no_duplicates(),
{
    let kept = distinct_ids(ids);
    proof {
        lemma_distinct(ids@, ids@.len());
        assert(ids@.subrange(0, ids@.len() as int) =~= ids@);
        if kept@.len() == ids@.len() {
            lemma_distinct_full(ids@, ids@.len());
        }
    }
    kept.len() == ids.len()
}

/// Drops the repetitions from a list of identifiers.
pub fn distinct_ids(ids: &Vec<u128>) -> (r: Vec<u128>)
    ensures
        r@ == distinct(ids@),
        r@.no_duplicates(),
{
    let mut out: Vec<u128> = Vec::new();
    let mut i: usize = 0;
    while i < ids.len()
        invariant
            i <= ids.len(),
            out@ == distinct_upto(ids@, i as nat),
        decreases ids.len() - i,
    {
        let mut seen = false;
        let mut j: usize = 0;
        while j < out.len()
            invariant
                j <= out.len(),
                i < ids.len(),
                seen <==> exists|k: int| 0 <= k < j && out@[k] == ids@[i as int],
            decreases out.len() - j,
        {
            if out[j] == ids[i] {
                seen = true;
            }
            j += 1;
        }
        assert(seen == out@.contains(ids@[i as int]));
        if !seen {
            out.push(ids[i]);
        }
        i += 1;
    }
    proof {
        lemma_distinct(ids@, ids@.len());
    }
    out
}

} // verus!
