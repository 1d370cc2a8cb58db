//! The cityscape feed: a flat array of five numbers per real building
//! (`x, z, w, d, h`), as the map loader delivers it, grouped into records.
use vstd::prelude::*;

verus! {

/// Numbers per building record in the flat feed.
pub const RECORD_LEN: usize = 5;

/// Record `k` of the flat feed `flat`.
pub open spec fn record_at<T>(flat: Seq<T>, k: int) -> (T, T, T, T, T) {
    (flat[5 * k], flat[5 * k + 1], flat[5 * k + 2], flat[5 * k + 3], flat[5 * k + 4])
}

/// Groups a flat feed into records of five, in order; a trailing partial
/// record is ignored.
pub fn city_records<T: Copy>(flat: &[T]) -> (out: Vec<(T, T, T, T, T)>)
    ensures
        out.len() == flat.len() / 5,
        forall|k: int| 0 <= k < out.len() ==> #[trigger] out@[k] == record_at(flat@, k),
{
    let mut out: Vec<(T, T, T, T, T)> = Vec::new();
    let mut i: usize = 0;
    while flat.len() - i >= RECORD_LEN
        invariant
            i <= flat.len(),
            i == 5 * out.len(),
            forall|k: int| 0 <= k < out.len() ==> #[trigger] out@[k] == record_at(flat@, k),
        decreases flat.len() - i,
    {
        out.push((flat[i], flat[i + 1], flat[i + 2], flat[i + 3], flat[i + 4]));
        i = i + RECORD_LEN;
    }
    out
}

} // verus!
