//! Liveness monitor.
//!
//! The connectivity task publishes a progress marker at every step boundary.
//! The watchdog samples that marker once per fixed window and counts how many
//! consecutive windows went by without the value changing; once the count
//! reaches the stall limit it faults, which the device answers with a full
//! reset. Only strict numeric inequality between consecutive samples counts
//! as progress.

use vstd::prelude::*;

verus! {

/// Consecutive stalled sampling windows before the watchdog faults.
pub const STALL_LIMIT: u8 = 15;

/// The watchdog's whole state: what it saw last time, and for how many
/// consecutive windows nothing changed.
#[derive(Debug, Clone, Copy, PartialEq, Eq, Structural)]
pub struct Watchdog {
    /// Progress marker value seen at the previous check; zero before the
    /// first check, matching the marker's initial value.
    pub prev_progress: u32,
    /// Consecutive checks that saw no change, saturated at the stall limit.
    pub stuck_count: u8,
}

/// A freshly started watchdog.
pub open spec fn wd_init() -> Watchdog {
    Watchdog { prev_progress: 0, stuck_count: 0 }
}

/// The stall counter after one check: up by one (saturated) on an unchanged
/// marker, reset to zero otherwise.
pub open spec fn next_stuck(w: Watchdog, current: u32) -> u8 {
    if current == w.prev_progress {
        if w.stuck_count < STALL_LIMIT {
            (w.stuck_count + 1) as u8
        } else {
            STALL_LIMIT
        }
    } else {
        0
    }
}

/// The watchdog's state after one check.
pub open spec fn wd_step(w: Watchdog, current: u32) -> Watchdog {
    Watchdog { prev_progress: current, stuck_count: next_stuck(w, current) }
}

/// Whether one check faults: the marker is unchanged and that completes the
/// stall limit.
pub open spec fn wd_faults(w: Watchdog, current: u32) -> bool {
    current == w.prev_progress && w.stuck_count + 1 >= STALL_LIMIT
}

/// The watchdog's state after sampling `samples` in order, from a fresh
/// start.
pub open spec fn wd_run(samples: Seq<u32>) -> Watchdog
    decreases samples.len(),
{
    if samples.len() == 0 {
        wd_init()
    } else {
        wd_step(wd_run(samples.drop_last()), samples.last())
    }
}

/// Whether the check at index `i` faults, when the watchdog samples
/// `samples` in order from a fresh start.
pub open spec fn wd_faults_at(samples: Seq<u32>, i: int) -> bool
    recommends
        0 <= i < samples.len(),
{
    wd_faults(wd_run(samples.take(i)), samples[i])
}

/// Whether the check at index `k` saw no progress: the sample equals the one
/// before it (the marker's initial value of zero, for the first check).
pub open spec fn unchanged_at(samples: Seq<u32>, k: int) -> bool
    recommends
        0 <= k < samples.len(),
{
    samples[k] == if k == 0 {
        0u32
    } else {
        samples[k - 1]
    }
}

/// Length of the unbroken run of no-progress checks at the end of the sample
/// sequence.
pub open spec fn trailing_stall(samples: Seq<u32>) -> nat
    decreases samples.len(),
{
    if samples.len() == 0 {
        0
    } else if unchanged_at(samples, samples.len() - 1) {
        trailing_stall(samples.drop_last()) + 1
    } else {
        0
    }
}

impl Watchdog {
    /// A watchdog that has seen nothing yet.
    pub fn new() -> (w: Self)
        ensures
            w == wd_init(),
    {
        Watchdog { prev_progress: 0, stuck_count: 0 }
    }

    /// One sampling window: compares the marker against the previous check
    /// and reports whether the stall limit is reached.
    pub fn check(&mut self, current: u32) -> (fault: bool)
        ensures
            *final(self) == wd_step(*old(self), current),
            fault == wd_faults(*old(self), current),
    {
        let fault: bool;
        if current == self.prev_progress {
            fault = self.stuck_count >= STALL_LIMIT - 1;
            self.stuck_count = if self.stuck_count < STALL_LIMIT {
                self.stuck_count + 1
            } else {
                STALL_LIMIT
            };
        } else {
            self.stuck_count = 0;
            fault = false;
        }
        self.prev_progress = current;
        fault
    }
}

/// The trailing stall run never exceeds the number of samples.
proof fn lemma_trailing_stall_le_len(samples: Seq<u32>)
    ensures
        trailing_stall(samples) <= samples.len(),
    decreases samples.len(),
{
    if samples.len() > 0 {
        lemma_trailing_stall_le_len(samples.drop_last());
    }
}

/// After any sample sequence, the watchdog remembers the last sample and its
/// stall counter equals the trailing no-progress run, saturated at the limit.
proof fn lemma_run_state(samples: Seq<u32>)
    ensures
        wd_run(samples).prev_progress == if samples.len() == 0 {
            0u32
        } else {
            samples.last()
        },
        wd_run(samples).stuck_count == if trailing_stall(samples) >= STALL_LIMIT {
            STALL_LIMIT as nat
        } else {
            trailing_stall(samples)
        },
    decreases samples.len(),
{
    if samples.len() > 0 {
        lemma_run_state(samples.drop_last());
    }
}

/// The trailing stall run reaches `n` exactly when the last `n` checks all
/// saw no progress.
proof fn lemma_trailing_stall_window(samples: Seq<u32>, n: nat)
    requires
        n <= samples.len(),
    ensures
        trailing_stall(samples) >= n <==> (forall|k: int|
            samples.len() - n <= k < samples.len() ==> unchanged_at(samples, k)),
    decreases n,
{
    if n > 0 {
        let shorter = samples.drop_last();
        lemma_trailing_stall_window(shorter, (n - 1) as nat);
        assert forall|k: int| shorter.len() - (n - 1) <= k < shorter.len() implies unchanged_at(
            shorter,
            k,
        ) == unchanged_at(samples, k) by {
            assert(shorter[k] == samples[k]);
            if k > 0 {
                assert(shorter[k - 1] == samples[k - 1]);
            }
        }
        if trailing_stall(samples) >= n {
            assert(unchanged_at(samples, samples.len() - 1));
        }
        if forall|k: int| samples.len() - n <= k < samples.len() ==> unchanged_at(samples, k) {
            assert(unchanged_at(samples, samples.len() - 1));
            assert(forall|k: int|
                shorter.len() - (n - 1) <= k < shorter.len() ==> unchanged_at(shorter, k));
            assert(trailing_stall(shorter) >= n - 1);
        }
    }
}

/// The watchdog faults at check `i` exactly when the progress marker was
/// unchanged at that check and at each of the preceding checks that make up
/// the stall limit. In particular it cannot fault in the first windows, and
/// one strict change inside the window postpones the fault.
pub proof fn lemma_fault_iff_stalled_window(samples: Seq<u32>, i: int)
    requires
        0 <= i < samples.len(),
    ensures
        wd_faults_at(samples, i) <==> (i >= STALL_LIMIT - 1 && forall|k: int|
            i - (STALL_LIMIT - 1) <= k <= i ==> unchanged_at(samples, k)),
{
    let pre = samples.take(i);
    lemma_run_state(pre);
    lemma_trailing_stall_le_len(pre);
    if i >= STALL_LIMIT - 1 {
        lemma_trailing_stall_window(pre, (STALL_LIMIT - 1) as nat);
    }
    assert forall|k: int| 0 <= k < i implies unchanged_at(pre, k) == unchanged_at(samples, k) by {
        assert(pre[k] == samples[k]);
        if k > 0 {
            assert(pre[k - 1] == samples[k - 1]);
        }
    }
    if i > 0 {
        assert(pre.last() == samples[i - 1]);
    }
    if wd_faults_at(samples, i) {
        assert(trailing_stall(pre) >= STALL_LIMIT - 1);
        assert(i >= STALL_LIMIT - 1);
        assert(unchanged_at(samples, i));
        assert forall|k: int| i - (STALL_LIMIT - 1) <= k <= i implies unchanged_at(
            samples,
            k,
        ) by {
            if k < i {
                assert(unchanged_at(pre, k));
            }
        }
    }
    if i >= STALL_LIMIT - 1 && (forall|k: int|
        i - (STALL_LIMIT - 1) <= k <= i ==> unchanged_at(samples, k)) {
        assert forall|k: int| pre.len() - (STALL_LIMIT - 1) <= k < pre.len() implies unchanged_at(
            pre,
            k,
        ) by {
            assert(unchanged_at(samples, k));
        }
        assert(trailing_stall(pre) >= STALL_LIMIT - 1);
        assert(unchanged_at(samples, i));
        assert(wd_faults_at(samples, i));
    }
}

/// One strict change of the marker inside the stall window keeps the
/// watchdog from faulting at the window's end, even if the marker later
/// returns to an earlier numeric value.
pub proof fn lemma_progress_prevents_fault(samples: Seq<u32>, i: int, k: int)
    requires
        0 <= i < samples.len(),
        i - (STALL_LIMIT - 1) <= k <= i,
        0 <= k,
        !unchanged_at(samples, k),
    ensures
        !wd_faults_at(samples, i),
{
    lemma_fault_iff_stalled_window(samples, i);
}

} // verus!
