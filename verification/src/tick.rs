//! The tick source's schedule: a fixed nominal period with drift
//! correction. The producer loop itself lives with the caller, which sends
//! one notification per round of this schedule; the decisions — the next
//! deadline and how long to wait for it — are computed and proved here.

use vstd::prelude::*;

verus! {

/// The next deadline: the previous deadline plus the fixed period, so
/// consumer slowness does not compound drift; but when now is more than the
/// resync allowance past that, the schedule resynchronizes to now, dropping
/// the backlog rather than firing a burst of catch-up ticks.
pub open spec fn next_deadline_spec(deadline: u64, now: u64, period: u64, resync_after: u64) -> int {
    if now > deadline + period + resync_after {
        now as int
    } else {
        deadline + period
    }
}

/// The wait until the next deadline, zero when it has already passed.
pub open spec fn wait_spec(deadline: u64, now: u64, period: u64) -> int {
    if deadline + period > now {
        deadline + period - now
    } else {
        0
    }
}

/// One round of the tick schedule: from the previous deadline, the time now,
/// the fixed period and the resync allowance — all in one time unit, say
/// milliseconds — the deadline of the next tick and how long to wait for it.
pub fn tick_schedule(deadline: u64, now: u64, period: u64, resync_after: u64) -> (r: (u64, u64))
    requires
        deadline + period <= u64::MAX,
    ensures
        r.0 == next_deadline_spec(deadline, now, period, resync_after),
        r.1 == wait_spec(deadline, now, period),
{
    let next = deadline + period;
    if next > now {
        (next, next - now)
    } else if now - next > resync_after {
        (now, 0)
    } else {
        (next, 0)
    }
}

/// The schedule never waits longer than one period, and a consumer on time
/// is never resynchronized: while now stays within the resync allowance of
/// the planned deadline, the deadline advances by exactly the period.
pub proof fn lemma_schedule_drift_corrected(deadline: u64, now: u64, period: u64, resync_after: u64)
    requires
        deadline + period <= u64::MAX,
    ensures
        now <= deadline + period + resync_after ==> next_deadline_spec(
            deadline,
            now,
            period,
            resync_after,
        ) == deadline + period,
        now >= deadline ==> wait_spec(deadline, now, period) <= period,
{
}

} // verus!
