use vstd::prelude::*;

verus! {

/// What one polling cycle must fetch, computed from the last observed total
/// entry count and the newly observed one. The range of new indices is
/// half-open: `[last, new)`.
pub struct CyclePlan {
    /// The newly committed indices, ascending; empty when the log has not
    /// grown, in which case no fetch is performed.
    pub indices: Vec<u64>,
    /// The cursor to carry into the next cycle.
    pub next_cursor: u64,
}

/// The cursor's seed at startup: one before the observed total, saturating at
/// zero, so that the very first cycle re-observes at least one entry.
pub fn seed_cursor(total: u64) -> (r: u64)
    ensures
        total > 0 ==> r == total - 1,
        total == 0 ==> r == 0,
{
    if total > 0 {
        total - 1
    } else {
        0
    }
}

/// Plans one polling cycle: the half-open range `[last, new)` of newly
/// committed indices, and the cursor for the next cycle, which is always the
/// newly observed size.
pub fn plan_cycle(last: u64, new: u64) -> (p: CyclePlan)
    ensures
        p.next_cursor == new,
        new > last ==> p.indices@.len() == new - last,
        new <= last ==> p.indices@.len() == 0,
        forall|k: int| 0 <= k < p.indices@.len() ==> p.indices@[k] == last + k,
{
    if new <= last {
        return CyclePlan { indices: Vec::new(), next_cursor: new };
    }
    let mut indices: Vec<u64> = Vec::new();
    let mut i: u64 = last;
    while i < new
        invariant
            last <= i <= new,
            indices@.len() == i - last,
            forall|k: int| 0 <= k < indices@.len() ==> indices@[k] == last + k,
        decreases new - i,
    {
        indices.push(i);
        i = i + 1;
    }
    CyclePlan { indices, next_cursor: new }
}

} // verus!
