//! Laws of the poll loop over runs of several ticks.
use vstd::prelude::*;
use crate::lock_state::{InteractionLockState, Notification};
use crate::poll::{
    PollLoop, Sample, step, is_idle_hover, reported_progress, lemma_step_bounds,
    lemma_step_dwell, lemma_step_auto_lock,
};

verus! {

/// The loop after one tick for each reading of `samples`, the `k`-th tick run
/// against `records[k]`: the record as the command layer left it before that
/// tick, whatever commands ran in between.
pub open spec fn loop_after(l: PollLoop, records: Seq<InteractionLockState>, samples: Seq<Sample>) -> PollLoop
    decreases samples.len(),
{
    if samples.len() == 0 || records.len() != samples.len() {
        l
    } else {
        step(
            loop_after(l, records.drop_last(), samples.drop_last()),
            records.last(),
            Some(samples.last()),
        ).0
    }
}

/// Every record handed to a tick is well formed.
pub open spec fn all_wf(records: Seq<InteractionLockState>) -> bool {
    forall|k: int| 0 <= k < records.len() ==> (#[trigger] records[k]).wf()
}

proof fn lemma_loop_after_prefix(
    l: PollLoop,
    records: Seq<InteractionLockState>,
    samples: Seq<Sample>,
    k: int,
)
    requires
        records.len() == samples.len(),
        0 < k <= samples.len(),
    ensures
        loop_after(l, records.take(k), samples.take(k)) == step(
            loop_after(l, records.take(k - 1), samples.take(k - 1)),
            records[k - 1],
            Some(samples[k - 1]),
        ).0,
{
    assert(samples.take(k).drop_last() =~= samples.take(k - 1));
    assert(records.take(k).drop_last() =~= records.take(k - 1));
}

proof fn lemma_loop_after_wf(l: PollLoop, records: Seq<InteractionLockState>, samples: Seq<Sample>)
    requires
        l.wf(),
        all_wf(records),
    ensures
        loop_after(l, records, samples).wf(),
    decreases samples.len(),
{
    if samples.len() > 0 && records.len() == samples.len() {
        assert(all_wf(records.drop_last()));
        lemma_loop_after_wf(l, records.drop_last(), samples.drop_last());
        lemma_step_bounds(
            loop_after(l, records.drop_last(), samples.drop_last()),
            records.last(),
            Some(samples.last()),
        );
    }
}

/// After `j` ticks the dwell counter is at most `j` plus where it started, and
/// the ticks it counts were all idle-hover ticks.
proof fn lemma_dwell_trail(
    l: PollLoop,
    records: Seq<InteractionLockState>,
    samples: Seq<Sample>,
    j: int,
)
    requires
        l.wf(),
        all_wf(records),
        records.len() == samples.len(),
        0 <= j <= samples.len(),
    ensures
        loop_after(l, records.take(j), samples.take(j)).idle_ticks <= j + l.idle_ticks,
        forall|k: int|
            j - loop_after(l, records.take(j), samples.take(j)).idle_ticks <= k < j && 0 <= k
                ==> is_idle_hover(
                #[trigger] loop_after(l, records.take(k), samples.take(k)),
                records[k],
                samples[k],
            ),
    decreases j,
{
    if j == 0 {
        assert(samples.take(0) =~= Seq::<Sample>::empty());
    } else {
        lemma_dwell_trail(l, records, samples, j - 1);
        lemma_loop_after_prefix(l, records, samples, j);
        assert(all_wf(records.take(j - 1)));
        lemma_loop_after_wf(l, records.take(j - 1), samples.take(j - 1));
        let lp = loop_after(l, records.take(j - 1), samples.take(j - 1));
        lemma_step_dwell(lp, records[j - 1], Some(samples[j - 1]));
    }
}

/// A dwell unlocks only after `wait + hold` idle-hover ticks in a row. When the
/// last tick of a run unlocks the overlay, each of its last `wait + hold` ticks
/// (all of them, if the run is shorter, which needs a dwell already under way
/// when it began) was an idle-hover tick, judged against the record of that
/// tick; commands may change the record between ticks. That tick leaves the
/// dwell counter at zero and the overlay open, unless the idle timeout locked
/// it again in the same tick.
pub proof fn lemma_unlock_needs_full_dwell(
    l: PollLoop,
    records: Seq<InteractionLockState>,
    samples: Seq<Sample>,
)
    requires
        l.wf(),
        all_wf(records),
        records.len() == samples.len(),
        samples.len() > 0,
        step(
            loop_after(l, records.drop_last(), samples.drop_last()),
            records.last(),
            Some(samples.last()),
        ).4.contains(Notification::LockStateChanged(false)),
    ensures
        samples.len() + l.idle_ticks >= records.last().total_ticks(),
        forall|k: int|
            samples.len() - records.last().total_ticks() <= k < samples.len() && 0 <= k
                ==> is_idle_hover(
                #[trigger] loop_after(l, records.take(k), samples.take(k)),
                records[k],
                samples[k],
            ),
        ({
            let (l1, s1, _raise, _ignore, notes) = step(
                loop_after(l, records.drop_last(), samples.drop_last()),
                records.last(),
                Some(samples.last()),
            );
            &&& l1.idle_ticks == 0
            &&& !s1.is_locked || notes.contains(Notification::LockStateChanged(true))
        }),
{
    let n = samples.len() as int;
    assert(samples.drop_last() =~= samples.take(n - 1));
    assert(records.drop_last() =~= records.take(n - 1));
    lemma_dwell_trail(l, records, samples, n - 1);
    assert(all_wf(records.take(n - 1)));
    lemma_loop_after_wf(l, records.take(n - 1), samples.take(n - 1));
    let lp = loop_after(l, records.take(n - 1), samples.take(n - 1));
    lemma_step_dwell(lp, records[n - 1], Some(samples[n - 1]));
    lemma_step_auto_lock(lp, records[n - 1], Some(samples[n - 1]));
}

/// While a dwell goes on, each tick reports at least the progress of the tick
/// before it, out of the same hold.
pub proof fn lemma_progress_never_falls(
    l: PollLoop,
    s: InteractionLockState,
    a: Sample,
    b: Sample,
)
    requires
        l.wf(),
        s.wf(),
        is_idle_hover(l, s, a),
        !step(l, s, Some(a)).4.contains(Notification::LockStateChanged(false)),
        is_idle_hover(step(l, s, Some(a)).0, step(l, s, Some(a)).1, b),
    ensures
        ({
            let first = reported_progress(step(l, s, Some(a)).4);
            let second = reported_progress(
                step(step(l, s, Some(a)).0, step(l, s, Some(a)).1, Some(b)).4,
            );
            &&& first is Some
            &&& second is Some
            &&& first->0.elapsed_ticks <= second->0.elapsed_ticks
            &&& first->0.hold_ticks == second->0.hold_ticks
        }),
{
    lemma_step_bounds(l, s, Some(a));
    lemma_step_dwell(l, s, Some(a));
    let (l1, s1, _r, _i, _n) = step(l, s, Some(a));
    lemma_step_dwell(l1, s1, Some(b));
}

/// A lock command takes effect by the next tick with a reading: after
/// `set_lock_state(locked)` that tick leaves the flag at `locked` and the
/// pointer handling in line with it, unless the tick itself reports a lock
/// transition (a dwell that completes, or the idle timeout).
pub proof fn lemma_lock_command_holds(
    l: PollLoop,
    s: InteractionLockState,
    locked: bool,
    smp: Sample,
)
    requires
        l.wf(),
        s.wf(),
    ensures
        ({
            let commanded = InteractionLockState { is_locked: locked, ..s };
            let (_l1, s1, _raise, _ignore, notes) = step(l, commanded, Some(smp));
            &&& s1.is_interactive == !s1.is_locked
            &&& !notes.contains(Notification::LockStateChanged(false)) && !notes.contains(
                Notification::LockStateChanged(true),
            ) ==> s1.is_locked == locked
        }),
{
    let commanded = InteractionLockState { is_locked: locked, ..s };
    lemma_step_bounds(l, commanded, Some(smp));
    lemma_step_auto_lock(l, commanded, Some(smp));
}

} // verus!
