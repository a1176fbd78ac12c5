//! Positional re-alignment of batch results.
//!
//! A batch of cancellations fans out as independent remote calls, which
//! complete in no particular order.  Each result carries the index of the
//! input it answers; [`align_by_index`] places every result at its index, so
//! the returned sequence corresponds to the caller's inputs positionally,
//! whatever the completion order was.

use vstd::prelude::*;
use vstd::pervasive::VecAdditionalExecFns;
use vstd::string::StringExecFns;
use crate::kalshi_error::KalshiError;

verus! {

/// How many slots of a sequence are filled.
spec fn count_filled<T>(s: Seq<Option<T>>) -> int
    decreases s.len(),
{
    if s.len() == 0 {
        0
    } else {
        count_filled(s.drop_last()) + if s.last() is Some {
            1int
        } else {
            0int
        }
    }
}

proof fn lemma_count_filled_bounds<T>(s: Seq<Option<T>>)
    ensures
        0 <= count_filled(s) <= s.len(),
    decreases s.len(),
{
    if s.len() > 0 {
        lemma_count_filled_bounds(s.drop_last());
    }
}

proof fn lemma_count_filled_full<T>(s: Seq<Option<T>>)
    requires
        count_filled(s) == s.len(),
    ensures
        forall|j: int| 0 <= j < s.len() ==> (#[trigger] s[j]) is Some,
    decreases s.len(),
{
    if s.len() > 0 {
        lemma_count_filled_bounds(s.drop_last());
        lemma_count_filled_full(s.drop_last());
        assert forall|j: int| 0 <= j < s.len() implies (#[trigger] s[j]) is Some by {
            if j < s.len() - 1 {
                assert(s.drop_last()[j] == s[j]);
            }
        }
    }
}

proof fn lemma_count_filled_all_some<T>(s: Seq<Option<T>>)
    requires
        forall|j: int| 0 <= j < s.len() ==> (#[trigger] s[j]) is Some,
    ensures
        count_filled(s) == s.len(),
    decreases s.len(),
{
    if s.len() > 0 {
        assert forall|j: int| 0 <= j < s.drop_last().len() implies (#[trigger] s.drop_last()[j])
            is Some by {
            assert(s.drop_last()[j] == s[j]);
        }
        lemma_count_filled_all_some(s.drop_last());
    }
}

proof fn lemma_count_filled_update<T>(s: Seq<Option<T>>, i: int, v: T)
    requires
        0 <= i < s.len(),
        s[i] is None,
    ensures
        count_filled(s.update(i, Some(v))) == count_filled(s) + 1,
    decreases s.len(),
{
    let t = s.update(i, Some(v));
    if i == s.len() - 1 {
        assert(t.drop_last() =~= s.drop_last());
    } else {
        assert(t.drop_last() =~= s.drop_last().update(i, Some(v)));
        assert(t.last() == s.last());
        lemma_count_filled_update(s.drop_last(), i, v);
    }
}

/// Message of the internal error raised when batch results do not cover the
/// request indices exactly.
pub open spec fn misaligned_batch_text() -> Seq<char> {
    "Batch results did not align with the requested order ids"@
}

fn misaligned_error() -> (e: KalshiError)
    ensures
        e matches KalshiError::InternalError(m) && m@ == misaligned_batch_text(),
{
    KalshiError::InternalError(
        String::from_str("Batch results did not align with the requested order ids"),
    )
}

/// Whether a tagged result list answers the indices `0..n` exactly once
/// each.
pub open spec fn covers_exactly<T>(tagged: Seq<(usize, T)>, n: int) -> bool {
    &&& tagged.len() == n
    &&& forall|k: int| 0 <= k < tagged.len() ==> (#[trigger] tagged[k]).0 < n
    &&& forall|k1: int, k2: int|
        0 <= k1 < k2 < tagged.len() ==> (#[trigger] tagged[k1]).0 != (#[trigger] tagged[k2]).0
}

/// Re-linearizes results that completed in an arbitrary order.  Each result
/// carries the index of the input it answers, and the output places it at
/// that index, so position `i` of the output answers input `i` whatever
/// order the results arrived in.  Succeeds exactly when the results answer
/// the `n` inputs once each; anything else is reported as an internal
/// error, never misassigned.
#[verifier::loop_isolation(false)]
pub fn align_by_index<T>(n: usize, tagged: Vec<(usize, T)>) -> (r: Result<Vec<T>, KalshiError>)
    ensures
        r is Ok <==> covers_exactly(tagged@, n as int),
        r matches Ok(v) ==> v@.len() == n && forall|k: int|
            0 <= k < tagged@.len() ==> v@[(#[trigger] tagged@[k]).0 as int] == tagged@[k].1,
        r matches Err(e) ==> (e matches KalshiError::InternalError(m) && m@
            == misaligned_batch_text()),
{
    let ghost orig = tagged@;
    let mut slots: Vec<Option<T>> = Vec::new();
    let mut i: usize = 0;
    while i < n
        invariant
            i <= n,
            slots@.len() == i as int,
            count_filled(slots@) == 0,
            forall|j: int| 0 <= j < i ==> (#[trigger] slots@[j]) is None,
        decreases n - i,
    {
        proof {
            assert(slots@.push(None).drop_last() =~= slots@);
        }
        slots.push(None);
        i = i + 1;
    }
    let mut work = tagged;
    proof {
        assert(orig.subrange(0, orig.len() as int) =~= orig);
    }
    while work.len() > 0
        invariant
            slots@.len() == n as int,
            work@.len() <= orig.len(),
            work@ == orig.subrange(0, work@.len() as int),
            count_filled(slots@) == orig.len() - work@.len(),
            forall|k: int|
                work@.len() <= k < orig.len() ==> (#[trigger] orig[k]).0 < n && slots@[orig[k].0 as int]
                    == Some(orig[k].1),
            forall|k1: int, k2: int|
                work@.len() <= k1 < k2 < orig.len() ==> (#[trigger] orig[k1]).0 != (
                #[trigger] orig[k2]).0,
            forall|j: int|
                0 <= j < n && (#[trigger] slots@[j]) is Some ==> exists|k: int|
                    work@.len() <= k < orig.len() && (#[trigger] orig[k]).0 == j,
        decreases work@.len(),
    {
        let ghost pre = work@;
        let item = match work.pop() {
            Some(item) => item,
            None => {
                proof {
                    assert(false);
                }
                return Err(misaligned_error());
            },
        };
        proof {
            assert(item == pre[pre.len() - 1]);
            assert(orig.subrange(0, pre.len() as int)[pre.len() - 1] == orig[pre.len() - 1]);
            assert(item == orig[work@.len() as int]);
            assert(work@ =~= orig.subrange(0, work@.len() as int));
        }
        let (idx, value) = item;
        if idx >= n {
            proof {
                assert(covers_exactly(orig, n as int) ==> (orig[work@.len() as int]).0 < n);
                assert(!covers_exactly(orig, n as int));
            }
            return Err(misaligned_error());
        }
        if slots[idx].is_some() {
            proof {
                let k2 = choose|k: int|
                    work@.len() < k < orig.len() && (#[trigger] orig[k]).0 == idx;
                assert(orig[work@.len() as int].0 == orig[k2].0);
                assert(!covers_exactly(orig, n as int));
            }
            return Err(misaligned_error());
        }
        proof {
            lemma_count_filled_update(slots@, idx as int, value);
        }
        slots.set(idx, Some(value));
    }
    proof {
        assert(count_filled(slots@) == orig.len());
        lemma_count_filled_bounds(slots@);
    }
    let ghost full = slots@;
    let mut rev: Vec<T> = Vec::new();
    proof {
        assert(full.subrange(0, full.len() as int) =~= full);
    }
    while slots.len() > 0
        invariant
            full.len() == n as int,
            count_filled(full) == orig.len(),
            slots@.len() <= full.len(),
            slots@ == full.subrange(0, slots@.len() as int),
            rev@.len() + slots@.len() == full.len(),
            forall|m: int| 0 <= m < rev@.len() ==> full[full.len() - 1 - m] == Some(#[trigger] rev@[m]),
        decreases slots@.len(),
    {
        let ghost pre = slots@;
        match slots.pop() {
            Some(slot) => {
                proof {
                    assert(slot == pre[pre.len() - 1]);
                    assert(full.subrange(0, pre.len() as int)[pre.len() - 1] == full[pre.len()
                        - 1]);
                    assert(slot == full[pre.len() - 1]);
                    assert(slots@ =~= full.subrange(0, slots@.len() as int));
                }
                match slot {
                    Some(v) => {
                        rev.push(v);
                        proof {
                            assert(full[full.len() - 1 - (rev@.len() - 1)] == Some(
                                rev@[rev@.len() - 1],
                            ));
                        }
                    },
                    None => {
                        proof {
                            if covers_exactly(orig, n as int) {
                                lemma_count_filled_full(full);
                                assert(full[pre.len() - 1] is Some);
                                assert(false);
                            }
                        }
                        return Err(misaligned_error());
                    },
                }
            },
            None => {
                proof {
                    assert(false);
                }
                return Err(misaligned_error());
            },
        }
    }
    proof {
        assert forall|j: int| 0 <= j < full.len() implies (#[trigger] full[j]) is Some by {
            let m = full.len() - 1 - j;
            assert(full[full.len() - 1 - m] == Some(rev@[m]));
        }
        lemma_count_filled_all_some(full);
        assert(orig.len() == n as int);
        assert(covers_exactly(orig, n as int));
    }
    let mut out: Vec<T> = Vec::new();
    while rev.len() > 0
        invariant
            full.len() == n as int,
            out@.len() + rev@.len() == full.len(),
            forall|m: int| 0 <= m < rev@.len() ==> full[full.len() - 1 - m] == Some(#[trigger] rev@[m]),
            forall|j: int| 0 <= j < out@.len() ==> full[j] == Some(#[trigger] out@[j]),
        decreases rev@.len(),
    {
        let ghost pre = rev@;
        match rev.pop() {
            Some(v) => {
                proof {
                    assert(v == pre[pre.len() - 1]);
                    assert(full[full.len() - 1 - (pre.len() - 1)] == Some(v));
                    assert(full.len() - 1 - (pre.len() - 1) == out@.len());
                    assert forall|m: int| 0 <= m < pre.len() - 1 implies full[full.len() - 1 - m]
                        == Some(#[trigger] pre.subrange(0, pre.len() - 1)[m]) by {
                        assert(pre.subrange(0, pre.len() - 1)[m] == pre[m]);
                    }
                }
                out.push(v);
            },
            None => {
                proof {
                    assert(false);
                }
                return Err(misaligned_error());
            },
        }
    }
    proof {
        assert forall|k: int|
            0 <= k < orig.len() implies out@[(#[trigger] orig[k]).0 as int] == orig[k].1 by {
            assert(full[orig[k].0 as int] == Some(orig[k].1));
            assert(full[orig[k].0 as int] == Some(out@[orig[k].0 as int]));
        }
    }
    Ok(out)
}

} // verus!
