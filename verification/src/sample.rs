use vstd::prelude::*;

verus! {

/// Largest magnitude a captured sample amplitude may carry.
///
/// Samples are fixed-point amplitudes: an amplitude of 1.0 from the audio
/// backend is stored as `SAMPLE_UNIT`, so the nominal range [-1.0, 1.0]
/// occupies only a tiny fraction of this limit. The limit exists so that the
/// difference of two captured samples always fits in an `i64`; callers that
/// hand samples to the pipeline keep them within it.
pub const AMP_LIMIT: i64 = 1099511627776;

/// Fixed-point value that stands for an amplitude of 1.0.
pub const SAMPLE_UNIT: i64 = 1048576;

/// A captured sample amplitude small enough that subtracting one such
/// amplitude from another cannot overflow an `i64`.
pub open spec fn sample_in_range(s: i64) -> bool {
    -AMP_LIMIT <= s <= AMP_LIMIT
}

/// All samples of a sequence are within the captured-amplitude range.
pub open spec fn all_in_range(s: Seq<i64>) -> bool {
    forall|i: int| 0 <= i < s.len() ==> sample_in_range(#[trigger] s[i])
}

/// Appending an in-range sample keeps a sequence of samples in range.
pub proof fn lemma_all_in_range_push(q: Seq<i64>, s: i64)
    requires
        all_in_range(q),
        sample_in_range(s),
    ensures
        all_in_range(q.push(s)),
{
    assert forall|i: int| 0 <= i < q.push(s).len() implies sample_in_range(#[trigger] q.push(s)[i]) by {
        if i < q.len() {
            assert(q.push(s)[i] == q[i]);
        }
    }
}

} // verus!
