//! Epoch-based interruption: the check emitted at every function entry and
//! loop header, against a cached deadline.
use vstd::prelude::*;

verus! {

/// What one emitted epoch check did at run time.
#[derive(Clone, Copy, Debug, PartialEq, Eq, Structural)]
pub struct EpochCheck {
    /// The cached deadline was exceeded, so the cold path re-read the
    /// authoritative deadline.
    pub reloaded_deadline: bool,
    /// Calls made to the new-epoch builtin (0 or 1).
    pub new_epoch_calls: u32,
    /// The cached deadline after the check.
    pub deadline: u64,
}

pub open spec fn epoch_check_of(current: u64, cached: u64, fresh: u64, new_deadline: u64) -> EpochCheck {
    if current < cached {
        EpochCheck { reloaded_deadline: false, new_epoch_calls: 0, deadline: cached }
    } else if current < fresh {
        EpochCheck { reloaded_deadline: true, new_epoch_calls: 0, deadline: fresh }
    } else {
        EpochCheck { reloaded_deadline: true, new_epoch_calls: 1, deadline: new_deadline }
    }
}

/// The emitted epoch check, run on the current epoch `current`, the cached
/// deadline, the authoritative deadline `fresh` that the cold path would
/// re-read, and the deadline the new-epoch builtin would return. Both
/// comparisons are unsigned `>=`.
pub fn epoch_check(current: u64, cached: u64, fresh: u64, new_deadline: u64) -> (r: EpochCheck)
    ensures
        r == epoch_check_of(current, cached, fresh, new_deadline),
{
    if current >= cached {
        let deadline = fresh;
        if current >= deadline {
            EpochCheck { reloaded_deadline: true, new_epoch_calls: 1, deadline: new_deadline }
        } else {
            EpochCheck { reloaded_deadline: true, new_epoch_calls: 0, deadline }
        }
    } else {
        EpochCheck { reloaded_deadline: false, new_epoch_calls: 0, deadline: cached }
    }
}

/// The check at function entry, where the cached deadline has just been
/// loaded from the authoritative one.
pub fn epoch_entry_check(current: u64, deadline: u64, new_deadline: u64) -> (r: EpochCheck)
    ensures
        r == epoch_check_of(current, deadline, deadline, new_deadline),
        r.new_epoch_calls == (if current >= deadline { 1u32 } else { 0u32 }),
{
    epoch_check(current, deadline, deadline, new_deadline)
}

/// Once the epoch counter has reached the authoritative deadline, the next
/// check calls the new-epoch builtin exactly once, however stale the cached
/// deadline is (a cached deadline never runs ahead of the authoritative
/// one). Before that, it is not called.
pub proof fn lemma_epoch_progress(current: u64, cached: u64, fresh: u64, new_deadline: u64)
    requires
        cached <= fresh,
    ensures
        current >= fresh ==> epoch_check_of(current, cached, fresh, new_deadline).new_epoch_calls == 1,
        current < fresh ==> epoch_check_of(current, cached, fresh, new_deadline).new_epoch_calls == 0,
{
}

} // verus!
