//! Horizontal placement of what each frame draws. The history is drawn with
//! the `i`-th sample at `x = i`, the whole polyline shifted left by its own
//! length, so the newest sample sits just left of the marker at `x = 0`.
use vstd::prelude::*;
use crate::model::NOISE_STEP;

verus! {

/// Drawn x of the `i`-th of `len` history samples.
pub open spec fn drawn_x(i: int, len: int) -> int {
    i - len
}

/// Drawn x of the `i`-th vertical gridline under a history of `len` samples.
pub open spec fn gridline_x(i: int, len: int) -> int {
    i * NOISE_STEP - len
}

/// Drawn x of each of `len` history samples, oldest first.
pub fn polyline_xs(len: usize) -> (r: Vec<i128>)
    ensures
        r@.len() == len,
        forall|i: int| 0 <= i < len ==> r@[i] == drawn_x(i, len as int),
{
    let mut r: Vec<i128> = Vec::new();
    let mut i: usize = 0;
    while i < len
        invariant
            i <= len,
            r@.len() == i,
            forall|k: int| 0 <= k < i ==> r@[k] == drawn_x(k, len as int),
        decreases len - i,
    {
        r.push(i as i128 - len as i128);
        i = i + 1;
    }
    r
}

/// Drawn x of each vertical gridline at frame counter `frame` under a
/// history of `len` samples: one per whole `NOISE_STEP` frames elapsed.
pub fn gridline_xs(frame: u64, len: usize) -> (r: Vec<i128>)
    ensures
        r@.len() == frame / NOISE_STEP,
        forall|i: int| 0 <= i < r@.len() ==> r@[i] == gridline_x(i, len as int),
{
    let count = frame / NOISE_STEP;
    let mut r: Vec<i128> = Vec::new();
    let mut i: u64 = 0;
    while i < count
        invariant
            count == frame / NOISE_STEP,
            i <= count,
            r@.len() == i,
            forall|k: int| 0 <= k < i ==> r@[k] == gridline_x(k, len as int),
        decreases count - i,
    {
        r.push(i as i128 * NOISE_STEP as i128 - len as i128);
        i = i + 1;
    }
    r
}

} // verus!
