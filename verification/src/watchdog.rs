//! The mathematical model of the idle watchdog's counter: how it evolves over
//! a history of tick observations, and when the leave action fires.

use vstd::prelude::*;

verus! {

/// Number of consecutive alone observations the counter must already show
/// before a tick may trigger the leave action: the leave fires on the sixth
/// consecutive alone observation.
pub const IDLE_LEAVE_THRESHOLD: usize = 5;

/// One step of the idle counter: an alone observation advances it by exactly
/// one, any other observation resets it to zero.
pub open spec fn step_counter(counter: nat, alone: bool) -> nat {
    if alone {
        counter + 1
    } else {
        0
    }
}

/// The idle counter after a whole history of tick observations, oldest first.
/// Each element records whether the bot was alone on that tick.
pub open spec fn counter_after(flags: Seq<bool>) -> nat
    decreases flags.len(),
{
    if flags.len() == 0 {
        0
    } else {
        step_counter(counter_after(flags.drop_last()), flags.last())
    }
}

/// The leave action fires on tick `i` of a history exactly when that tick is
/// an alone observation and the counter before it already stood at the
/// threshold.
pub open spec fn leave_fires_at(flags: Seq<bool>, i: int) -> bool {
    &&& 0 <= i < flags.len()
    &&& flags[i]
    &&& counter_after(flags.take(i)) >= IDLE_LEAVE_THRESHOLD
}

/// Appending one observation to a history advances the counter by exactly one
/// step.
pub proof fn lemma_counter_after_push(flags: Seq<bool>, alone: bool)
    ensures
        counter_after(flags.push(alone)) == step_counter(counter_after(flags), alone),
{
    assert(flags.push(alone).drop_last() =~= flags);
    assert(flags.push(alone).last() == alone);
}

/// While alone observations are consecutive the counter is monotonically
/// non-decreasing (it grows by exactly one per tick), and it resets to
/// exactly zero the instant a non-alone observation occurs.
pub proof fn lemma_counter_monotone_until_reset(flags: Seq<bool>, i: int)
    requires
        0 <= i < flags.len(),
    ensures
        flags[i] ==> counter_after(flags.take(i + 1)) == counter_after(flags.take(i)) + 1,
        !flags[i] ==> counter_after(flags.take(i + 1)) == 0,
{
    assert(flags.take(i + 1).drop_last() =~= flags.take(i));
    assert(flags.take(i + 1).last() == flags[i]);
}

/// The counter counts exactly the length of the current run of alone
/// observations: it has reached `k` exactly when the history holds at least
/// `k` observations and the most recent `k` were all alone.
pub proof fn lemma_counter_counts_alone_run(flags: Seq<bool>, k: nat)
    ensures
        counter_after(flags) >= k <==> (k <= flags.len() && (forall|j: int|
            flags.len() - k <= j < flags.len() ==> flags[j])),
    decreases flags.len(),
{
    if k == 0 {
        // Zero is always reached and the range of recent observations is
        // empty: both sides hold.
    } else if flags.len() == 0 {
        // The counter is zero and the history is shorter than `k`: both
        // sides fail.
        assert(counter_after(flags) == 0);
    } else {
        let d = flags.drop_last();
        lemma_counter_counts_alone_run(d, (k - 1) as nat);
        assert(forall|j: int| 0 <= j < d.len() ==> d[j] == flags[j]);
        if flags.last() {
            assert(counter_after(flags) == counter_after(d) + 1);
            if counter_after(flags) >= k {
                assert(counter_after(d) >= (k - 1) as nat);
                assert forall|j: int| flags.len() - k <= j < flags.len() implies flags[j] by {
                    if j < flags.len() - 1 {
                        assert(d[j]);
                    } else {
                        assert(flags[j] == flags.last());
                    }
                }
            }
            if k <= flags.len() && (forall|j: int|
                flags.len() - k <= j < flags.len() ==> flags[j]) {
                assert forall|j: int| d.len() - (k - 1) <= j < d.len() implies d[j] by {
                    assert(flags[j]);
                }
                assert(counter_after(d) >= (k - 1) as nat);
            }
        } else {
            assert(counter_after(flags) == 0);
            assert(!flags[flags.len() - 1]);
        }
    }
}

/// The leave action fires on tick `i` exactly when ticks `i - 5` through `i`
/// were six consecutive alone observations; no shorter consecutive-alone run
/// ever fires it.
pub proof fn lemma_leave_fires_iff_sixth_alone(flags: Seq<bool>, i: int)
    requires
        0 <= i < flags.len(),
    ensures
        leave_fires_at(flags, i) <==> (IDLE_LEAVE_THRESHOLD <= i && (forall|j: int|
            i - IDLE_LEAVE_THRESHOLD <= j <= i ==> flags[j])),
{
    lemma_counter_counts_alone_run(flags.take(i), IDLE_LEAVE_THRESHOLD as nat);
    assert(forall|j: int| 0 <= j < i ==> flags.take(i)[j] == flags[j]);
    if IDLE_LEAVE_THRESHOLD <= i && (forall|j: int|
        i - IDLE_LEAVE_THRESHOLD <= j <= i ==> flags[j]) {
        assert forall|j: int|
            flags.take(i).len() - IDLE_LEAVE_THRESHOLD <= j < flags.take(i).len()
            implies flags.take(i)[j] by {
            assert(flags[j]);
        }
        assert(counter_after(flags.take(i)) >= IDLE_LEAVE_THRESHOLD);
        assert(flags[i]);
    }
    if leave_fires_at(flags, i) {
        assert(IDLE_LEAVE_THRESHOLD <= flags.take(i).len());
        assert forall|j: int| i - IDLE_LEAVE_THRESHOLD <= j <= i implies flags[j] by {
            if j < i {
                assert(flags.take(i)[j]);
            }
        }
    }
}

} // verus!
