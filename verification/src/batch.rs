//! Order-preserving collection of batch results.
//!
//! Workers may finish out of order and individual items may fail; the
//! batch result is rebuilt against the original positions, with the
//! original source path substituted wherever an item failed, so the
//! output never shrinks and never reorders.

use vstd::prelude::*;

verus! {

/// Rebuild the ordered output of one batch from per-item results.
///
/// `results` carries, per worker, the original position and either the
/// produced artifact path or nothing on a per-item failure. Positions
/// must be in range and pairwise distinct (each item is processed once).
///
/// The output has exactly one entry per input, in input order: the
/// produced path where the item succeeded, the original input path
/// where it failed — items are never dropped, even when some fail.
pub fn finalize_batch(paths: &Vec<String>, results: &Vec<(usize, Option<String>)>) -> (r: Vec<
    String,
>)
    requires
        forall|j: int| 0 <= j < results@.len() ==> (#[trigger] results@[j].0) < paths@.len(),
        forall|j: int, k: int|
            0 <= j < k < results@.len() ==> (#[trigger] results@[j].0) != (
            #[trigger] results@[k].0),
    ensures
        r@.len() == paths@.len(),
        forall|j: int|
            0 <= j < results@.len() ==> ((#[trigger] results@[j].1) matches Some(s)
                ==> r@[results@[j].0 as int] == s),
        forall|i: int|
            0 <= i < paths@.len() && !(exists|j: int|
                0 <= j < results@.len() && (#[trigger] results@[j].0) == i && results@[j].1
                    is Some) ==> (#[trigger] r@[i]) == paths@[i],
{
    let n = paths.len();
    let mut out: Vec<String> = Vec::new();
    let mut i: usize = 0;
    while i < n
        invariant
            i <= n,
            n == paths@.len(),
            out@.len() == i,
            forall|t: int| 0 <= t < i ==> out@[t] == paths@[t],
        decreases n - i,
    {
        out.push(paths[i].clone());
        i = i + 1;
    }
    let m = results.len();
    let mut j: usize = 0;
    while j < m
        invariant
            j <= m,
            m == results@.len(),
            n == paths@.len(),
            out@.len() == n,
            forall|t: int| 0 <= t < results@.len() ==> (#[trigger] results@[t].0) < paths@.len(),
            forall|t: int, k: int|
                0 <= t < k < results@.len() ==> (#[trigger] results@[t].0) != (
                #[trigger] results@[k].0),
            forall|t: int|
                0 <= t < j ==> ((#[trigger] results@[t].1) matches Some(s)
                    ==> out@[results@[t].0 as int] == s),
            forall|i2: int|
                0 <= i2 < n && !(exists|t: int|
                    0 <= t < j && (#[trigger] results@[t].0) == i2 && results@[t].1 is Some)
                    ==> (#[trigger] out@[i2]) == paths@[i2],
        decreases m - j,
    {
        let idx = results[j].0;
        match &results[j].1 {
            Some(s) => {
                out.set(idx, s.clone());
            },
            None => {},
        }
        j = j + 1;
    }
    out
}

} // verus!
