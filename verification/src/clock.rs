//! Deadline arithmetic over clock readings.
//!
//! The swap call carries an absolute Unix-seconds deadline: the reading of
//! the wall clock at build time, plus the request's offset. The embedding
//! program reads the clock and hands the reading in as a plain value; turning
//! it into a deadline is verified arithmetic, total over every `i64` a caller
//! could pass: a negative reading counts as zero, and the sum saturates
//! rather than wrapping.

use vstd::prelude::*;

verus! {

/// The absolute deadline for a clock reading `now` (seconds since the Unix
/// epoch) and an offset in seconds: negative readings are clamped to zero,
/// and the sum saturates at `u64::MAX`.
pub open spec fn deadline_spec(now: i64, offset_secs: u64) -> int {
    let base: int = if now < 0 {
        0
    } else {
        now as int
    };
    if base + offset_secs > u64::MAX {
        u64::MAX as int
    } else {
        base + offset_secs
    }
}

/// The absolute deadline for a given clock reading and offset.
pub fn deadline_from(now: i64, offset_secs: u64) -> (r: u64)
    ensures
        r == deadline_spec(now, offset_secs),
{
    let base: u64 = if now < 0 {
        0
    } else {
        now as u64
    };
    match base.checked_add(offset_secs) {
        Some(v) => v,
        None => u64::MAX,
    }
}

/// For every non-negative clock reading, the deadline is exactly the reading
/// plus the offset, saturating at `u64::MAX` --- never a wrapped sum.
pub proof fn lemma_deadline_saturates(now: i64, offset_secs: u64)
    requires
        now >= 0,
    ensures
        deadline_spec(now, offset_secs) == if now + offset_secs > u64::MAX {
            u64::MAX as int
        } else {
            now + offset_secs
        },
{
}

} // verus!
