//! The decisions of the 100 ms poll loop: hover edges, the dwell that unlocks
//! the overlay, the idle timeout that locks it again, the always-on-top cadence
//! and the window's pointer handling. The loop itself, which reads the cursor
//! and the window and carries out the effects, runs outside this crate.
use vstd::prelude::*;
use crate::lock_state::{InteractionLockState, Notification, Progress};

verus! {

/// Ticks between two re-assertions of the window's top-most placement.
pub const ON_TOP_INTERVAL: u32 = 5;

/// Squared cursor displacement, in pixels, below which a tick counts as idle.
pub const JITTER_RADIUS_SQ: i64 = 25;

/// One reading of the cursor and of the overlay window, in screen coordinates.
#[derive(Clone, Copy, Debug, PartialEq, Eq, Structural)]
pub struct Sample {
    pub cursor_x: i32,
    pub cursor_y: i32,
    pub window_x: i32,
    pub window_y: i32,
    pub width: u32,
    pub height: u32,
}

/// What the loop must do after a tick.
pub struct TickEffects {
    /// Re-assert the window's top-most placement now.
    pub raise_on_top: bool,
    /// New value for the window's ignore-cursor-events setting, if it changes.
    pub ignore_cursor_events: Option<bool>,
    /// Notifications for the display surface, in order.
    pub notifications: Vec<Notification>,
}

/// The loop's own counters and last readings; none of it is shared.
#[derive(Clone, Copy, Debug, PartialEq, Eq, Structural)]
pub struct PollLoop {
    pub was_hovering: bool,
    pub last_mouse_x: i32,
    pub last_mouse_y: i32,
    /// Consecutive idle-hover ticks of the current dwell.
    pub idle_ticks: u64,
    pub last_window_x: i32,
    pub last_window_y: i32,
    /// Consecutive ticks, while open, in which the window did not move.
    pub auto_lock_idle_ticks: u64,
    pub always_on_top_ticks: u32,
}

/// The cursor lies in the window's rectangle, right and bottom edges excluded.
pub open spec fn contains(s: Sample) -> bool {
    s.window_x <= s.cursor_x && s.cursor_x < s.window_x + s.width && s.window_y <= s.cursor_y
        && s.cursor_y < s.window_y + s.height
}

/// A displacement small enough to count as a still cursor.
pub open spec fn is_jitter(dx: int, dy: int) -> bool {
    dx * dx + dy * dy < JITTER_RADIUS_SQ
}

/// Ticks of the hold completed after `idle` dwell ticks: none during the
/// wait, then one per tick up to the whole hold.
pub open spec fn elapsed_hold(s: InteractionLockState, idle: int) -> int {
    if idle < s.unlock_wait_ticks {
        0
    } else if idle - s.unlock_wait_ticks < s.unlock_hold_ticks {
        idle - s.unlock_wait_ticks
    } else {
        s.unlock_hold_ticks as int
    }
}

pub open spec fn progress_at(s: InteractionLockState, idle: int) -> Progress {
    Progress { elapsed_ticks: elapsed_hold(s, idle) as u32, hold_ticks: s.unlock_hold_ticks }
}

pub open spec fn no_progress(s: InteractionLockState) -> Progress {
    Progress { elapsed_ticks: 0, hold_ticks: s.unlock_hold_ticks }
}

/// The tick is one of a dwell: hovering over a locked overlay with hover
/// unlock on, and the cursor still since the last reading.
pub open spec fn is_idle_hover(l: PollLoop, s: InteractionLockState, smp: Sample) -> bool {
    contains(smp) && s.is_locked && s.enable_hover_unlock && is_jitter(
        smp.cursor_x - l.last_mouse_x,
        smp.cursor_y - l.last_mouse_y,
    )
}

pub open spec fn on_top_step(l: PollLoop) -> (PollLoop, bool) {
    if l.always_on_top_ticks + 1 >= ON_TOP_INTERVAL {
        (PollLoop { always_on_top_ticks: 0, ..l }, true)
    } else {
        (PollLoop { always_on_top_ticks: (l.always_on_top_ticks + 1) as u32, ..l }, false)
    }
}

pub open spec fn hover_step(l: PollLoop, s: InteractionLockState, hovering: bool) -> (
    PollLoop,
    Seq<Notification>,
) {
    if hovering == l.was_hovering {
        (l, seq![])
    } else if hovering {
        (PollLoop { was_hovering: true, ..l }, seq![Notification::HoverChanged(true)])
    } else {
        (
            PollLoop { was_hovering: false, idle_ticks: 0, ..l },
            seq![
                Notification::HoverChanged(false),
                Notification::UnlockProgress(no_progress(s)),
            ],
        )
    }
}

pub open spec fn dwell_step(l: PollLoop, s: InteractionLockState, smp: Sample) -> (
    PollLoop,
    InteractionLockState,
    Seq<Notification>,
) {
    if contains(smp) && s.is_locked && s.enable_hover_unlock {
        let idle: int = if is_jitter(smp.cursor_x - l.last_mouse_x, smp.cursor_y - l.last_mouse_y) {
            l.idle_ticks + 1
        } else {
            0
        };
        let l1 = PollLoop {
            idle_ticks: idle as u64,
            last_mouse_x: smp.cursor_x,
            last_mouse_y: smp.cursor_y,
            ..l
        };
        let p = Notification::UnlockProgress(progress_at(s, idle));
        if idle >= s.total_ticks() {
            (
                PollLoop { idle_ticks: 0, ..l1 },
                InteractionLockState { is_locked: false, ..s },
                seq![p, Notification::LockStateChanged(false)],
            )
        } else {
            (l1, s, seq![p])
        }
    } else {
        let l1 = PollLoop {
            idle_ticks: 0,
            last_mouse_x: smp.cursor_x,
            last_mouse_y: smp.cursor_y,
            ..l
        };
        if l.idle_ticks > 0 {
            (l1, s, seq![Notification::UnlockProgress(no_progress(s))])
        } else {
            (l1, s, seq![])
        }
    }
}

pub open spec fn auto_lock_step(l: PollLoop, s: InteractionLockState, smp: Sample) -> (
    PollLoop,
    InteractionLockState,
    Seq<Notification>,
) {
    if !s.is_locked && s.enable_auto_lock {
        let l1 = if smp.window_x == l.last_window_x && smp.window_y == l.last_window_y {
            PollLoop { auto_lock_idle_ticks: (l.auto_lock_idle_ticks + 1) as u64, ..l }
        } else {
            PollLoop {
                auto_lock_idle_ticks: 0,
                last_window_x: smp.window_x,
                last_window_y: smp.window_y,
                ..l
            }
        };
        if l1.auto_lock_idle_ticks >= s.auto_lock_delay_ticks {
            (
                PollLoop { auto_lock_idle_ticks: 0, ..l1 },
                InteractionLockState { is_locked: true, ..s },
                seq![Notification::LockStateChanged(true)],
            )
        } else {
            (l1, s, seq![])
        }
    } else {
        (
            PollLoop {
                auto_lock_idle_ticks: 0,
                last_window_x: smp.window_x,
                last_window_y: smp.window_y,
                ..l
            },
            s,
            seq![],
        )
    }
}

pub open spec fn sync_step(s: InteractionLockState) -> (InteractionLockState, Option<bool>) {
    if s.is_interactive == !s.is_locked {
        (s, None)
    } else {
        (InteractionLockState { is_interactive: !s.is_locked, ..s }, Some(s.is_locked))
    }
}

/// One whole tick: loop counters, shared record, whether to raise the window,
/// the pointer setting to apply, and the notifications. A tick without a
/// reading only advances the top-most cadence: the trackers, the record and
/// the window's pointer handling keep their values, and nothing is reported.
pub open spec fn step(l: PollLoop, s: InteractionLockState, sample: Option<Sample>) -> (
    PollLoop,
    InteractionLockState,
    bool,
    Option<bool>,
    Seq<Notification>,
) {
    let (l1, raise) = on_top_step(l);
    match sample {
        None => (l1, s, raise, None, seq![]),
        Some(smp) => {
            let (l2, n1) = hover_step(l1, s, contains(smp));
            let (l3, s3, n2) = dwell_step(l2, s, smp);
            let (l4, s4, n3) = auto_lock_step(l3, s3, smp);
            let (s5, ignore) = sync_step(s4);
            (l4, s5, raise, ignore, n1 + n2 + n3)
        },
    }
}

/// Largest dwell count a loop can hold between ticks: below the largest total.
pub const MAX_IDLE_TICKS: u64 = 0x1_ffff_fffe;

impl Sample {
    /// Whether the cursor lies in the window's rectangle.
    pub fn cursor_inside(&self) -> (r: bool)
        ensures
            r == contains(*self),
    {
        let rel_x: i64 = self.cursor_x as i64 - self.window_x as i64;
        let rel_y: i64 = self.cursor_y as i64 - self.window_y as i64;
        rel_x >= 0 && rel_x < self.width as i64 && rel_y >= 0 && rel_y < self.height as i64
    }
}

/// Whether a cursor displacement stays within the jitter radius.
pub fn within_jitter(dx: i64, dy: i64) -> (r: bool)
    requires
        -0x1_0000_0000 <= dx <= 0x1_0000_0000,
        -0x1_0000_0000 <= dy <= 0x1_0000_0000,
    ensures
        r == is_jitter(dx as int, dy as int),
{
    if dx <= -5 || dx >= 5 || dy <= -5 || dy >= 5 {
        assert(dx * dx + dy * dy >= 25) by (nonlinear_arith)
            requires
                dx <= -5 || dx >= 5 || dy <= -5 || dy >= 5,
        ;
        false
    } else {
        assert(0 <= dx * dx <= 16 && 0 <= dy * dy <= 16) by (nonlinear_arith)
            requires
                -5 < dx < 5,
                -5 < dy < 5,
        ;
        dx * dx + dy * dy < JITTER_RADIUS_SQ
    }
}

/// The unlock progress after `idle` dwell ticks.
pub fn unlock_progress(s: &InteractionLockState, idle: u64) -> (r: Progress)
    requires
        s.wf(),
    ensures
        r == progress_at(*s, idle as int),
        r.elapsed_ticks <= r.hold_ticks,
        r.hold_ticks >= 1,
{
    let wait = s.unlock_wait_ticks as u64;
    let hold = s.unlock_hold_ticks as u64;
    let elapsed: u64 = if idle < wait {
        0
    } else if idle - wait < hold {
        idle - wait
    } else {
        hold
    };
    Progress { elapsed_ticks: elapsed as u32, hold_ticks: s.unlock_hold_ticks }
}

impl PollLoop {
    /// Bounds that keep the counters from overflowing.
    pub open spec fn wf(&self) -> bool {
        &&& self.idle_ticks <= MAX_IDLE_TICKS
        &&& self.auto_lock_idle_ticks <= u32::MAX
        &&& self.always_on_top_ticks < ON_TOP_INTERVAL
    }

    /// A loop that has seen nothing yet.
    pub fn new() -> (r: Self)
        ensures
            r.wf(),
            r == (PollLoop {
                was_hovering: false,
                last_mouse_x: 0,
                last_mouse_y: 0,
                idle_ticks: 0,
                last_window_x: 0,
                last_window_y: 0,
                auto_lock_idle_ticks: 0,
                always_on_top_ticks: 0,
            }),
    {
        PollLoop {
            was_hovering: false,
            last_mouse_x: 0,
            last_mouse_y: 0,
            idle_ticks: 0,
            last_window_x: 0,
            last_window_y: 0,
            auto_lock_idle_ticks: 0,
            always_on_top_ticks: 0,
        }
    }

    fn advance_on_top(&mut self) -> (raise: bool)
        requires
            old(self).wf(),
        ensures
            (*final(self), raise) == on_top_step(*old(self)),
            final(self).wf(),
    {
        if self.always_on_top_ticks + 1 >= ON_TOP_INTERVAL {
            self.always_on_top_ticks = 0;
            true
        } else {
            self.always_on_top_ticks = self.always_on_top_ticks + 1;
            false
        }
    }

    fn track_hover(
        &mut self,
        s: &InteractionLockState,
        hovering: bool,
        notes: &mut Vec<Notification>,
    )
        requires
            old(self).wf(),
        ensures
            *final(self) == hover_step(*old(self), *s, hovering).0,
            final(notes)@ == old(notes)@ + hover_step(*old(self), *s, hovering).1,
            final(self).wf(),
    {
        if hovering != self.was_hovering {
            self.was_hovering = hovering;
            notes.push(Notification::HoverChanged(hovering));
            if !hovering {
                self.idle_ticks = 0;
                notes.push(
                    Notification::UnlockProgress(
                        Progress { elapsed_ticks: 0, hold_ticks: s.unlock_hold_ticks },
                    ),
                );
            }
        }
        assert(final(notes)@ =~= old(notes)@ + hover_step(*old(self), *s, hovering).1);
    }

    fn track_dwell(
        &mut self,
        s: &mut InteractionLockState,
        smp: &Sample,
        hovering: bool,
        notes: &mut Vec<Notification>,
    )
        requires
            old(self).wf(),
            old(s).wf(),
            hovering == contains(*smp),
        ensures
            (*final(self), *final(s)) == ((dwell_step(*old(self), *old(s), *smp).0, dwell_step(
                *old(self),
                *old(s),
                *smp,
            ).1)),
            final(notes)@ == old(notes)@ + dwell_step(*old(self), *old(s), *smp).2,
            final(self).wf(),
            final(s).wf(),
    {
        if hovering && s.is_locked && s.enable_hover_unlock {
            let dx: i64 = smp.cursor_x as i64 - self.last_mouse_x as i64;
            let dy: i64 = smp.cursor_y as i64 - self.last_mouse_y as i64;
            if within_jitter(dx, dy) {
                self.idle_ticks = self.idle_ticks + 1;
            } else {
                self.idle_ticks = 0;
            }
            self.last_mouse_x = smp.cursor_x;
            self.last_mouse_y = smp.cursor_y;
            notes.push(Notification::UnlockProgress(unlock_progress(s, self.idle_ticks)));
            if self.idle_ticks >= s.unlock_wait_ticks as u64 + s.unlock_hold_ticks as u64 {
                s.is_locked = false;
                notes.push(Notification::LockStateChanged(false));
                self.idle_ticks = 0;
            }
        } else {
            let had_progress = self.idle_ticks > 0;
            self.idle_ticks = 0;
            self.last_mouse_x = smp.cursor_x;
            self.last_mouse_y = smp.cursor_y;
            if had_progress {
                notes.push(
                    Notification::UnlockProgress(
                        Progress { elapsed_ticks: 0, hold_ticks: s.unlock_hold_ticks },
                    ),
                );
            }
        }
        assert(final(notes)@ =~= old(notes)@ + dwell_step(*old(self), *old(s), *smp).2);
    }

    fn track_auto_lock(
        &mut self,
        s: &mut InteractionLockState,
        smp: &Sample,
        notes: &mut Vec<Notification>,
    )
        requires
            old(self).wf(),
            old(s).wf(),
        ensures
            (*final(self), *final(s)) == ((auto_lock_step(*old(self), *old(s), *smp).0, auto_lock_step(
                *old(self),
                *old(s),
                *smp,
            ).1)),
            final(notes)@ == old(notes)@ + auto_lock_step(*old(self), *old(s), *smp).2,
            final(self).wf(),
            final(s).wf(),
    {
        if !s.is_locked && s.enable_auto_lock {
            if smp.window_x == self.last_window_x && smp.window_y == self.last_window_y {
                self.auto_lock_idle_ticks = self.auto_lock_idle_ticks + 1;
            } else {
                self.auto_lock_idle_ticks = 0;
                self.last_window_x = smp.window_x;
                self.last_window_y = smp.window_y;
            }
            if self.auto_lock_idle_ticks >= s.auto_lock_delay_ticks as u64 {
                s.is_locked = true;
                notes.push(Notification::LockStateChanged(true));
                self.auto_lock_idle_ticks = 0;
            }
        } else {
            self.auto_lock_idle_ticks = 0;
            self.last_window_x = smp.window_x;
            self.last_window_y = smp.window_y;
        }
        assert(final(notes)@ =~= old(notes)@ + auto_lock_step(*old(self), *old(s), *smp).2);
    }
}

/// The unlock progress last reported in `notes`, if any.
pub open spec fn reported_progress(notes: Seq<Notification>) -> Option<Progress>
    decreases notes.len(),
{
    if notes.len() == 0 {
        None
    } else {
        match notes.last() {
            Notification::UnlockProgress(p) => Some(p),
            _ => reported_progress(notes.drop_last()),
        }
    }
}

/// The timings and switches that a tick never changes.
pub open spec fn same_settings(a: InteractionLockState, b: InteractionLockState) -> bool {
    &&& a.unlock_wait_ticks == b.unlock_wait_ticks
    &&& a.unlock_hold_ticks == b.unlock_hold_ticks
    &&& a.enable_hover_unlock == b.enable_hover_unlock
    &&& a.enable_auto_lock == b.enable_auto_lock
    &&& a.auto_lock_delay_ticks == b.auto_lock_delay_ticks
}

proof fn lemma_reported_progress_tail(notes: Seq<Notification>, p: Progress, tail: Seq<Notification>)
    requires
        forall|i: int| 0 <= i < tail.len() ==> !(tail[i] is UnlockProgress),
    ensures
        reported_progress(notes.push(Notification::UnlockProgress(p)) + tail) == Some(p),
    decreases tail.len(),
{
    let all = notes.push(Notification::UnlockProgress(p)) + tail;
    if tail.len() == 0 {
        assert(all =~= notes.push(Notification::UnlockProgress(p)));
    } else {
        assert(all.drop_last() =~= notes.push(Notification::UnlockProgress(p)) + tail.drop_last());
        lemma_reported_progress_tail(notes, p, tail.drop_last());
    }
}

/// A tick keeps the counters bounded, never changes a setting, and leaves the
/// pointer handling in line with the lock flag when it has a reading.
pub proof fn lemma_step_bounds(l: PollLoop, s: InteractionLockState, sample: Option<Sample>)
    requires
        l.wf(),
        s.wf(),
    ensures
        step(l, s, sample).0.wf(),
        step(l, s, sample).1.wf(),
        same_settings(s, step(l, s, sample).1),
        sample is Some ==> step(l, s, sample).1.is_interactive == !step(l, s, sample).1.is_locked,
{
}

/// Where each kind of notification of a tick comes from.
proof fn lemma_step_sources(l: PollLoop, s: InteractionLockState, smp: Sample)
    requires
        l.wf(),
        s.wf(),
    ensures
        ({
            let (l1, _raise) = on_top_step(l);
            let (l2, n1) = hover_step(l1, s, contains(smp));
            let (l3, s3, n2) = dwell_step(l2, s, smp);
            let (l4, s4, n3) = auto_lock_step(l3, s3, smp);
            let notes = n1 + n2 + n3;
            &&& notes == step(l, s, Some(smp)).4
            &&& notes.contains(Notification::LockStateChanged(false)) <==> s.is_locked && !s3.is_locked
            &&& notes.contains(Notification::LockStateChanged(true)) <==> !s3.is_locked && s4.is_locked
        }),
{
    let (l1, _raise) = on_top_step(l);
    let (l2, n1) = hover_step(l1, s, contains(smp));
    let (l3, s3, n2) = dwell_step(l2, s, smp);
    let (l4, s4, n3) = auto_lock_step(l3, s3, smp);
    let notes = n1 + n2 + n3;
    let unlock = Notification::LockStateChanged(false);
    let relock = Notification::LockStateChanged(true);
    assert(!n1.contains(unlock) && !n1.contains(relock));
    assert(!n2.contains(relock));
    assert(!n3.contains(unlock));
    if s.is_locked && !s3.is_locked {
        assert(notes[n1.len() + 1int] == unlock);
    }
    if !s3.is_locked && s4.is_locked {
        assert(notes[(n1.len() + n2.len()) as int] == relock);
    }
    if notes.contains(unlock) {
        let i = choose|i: int| 0 <= i < notes.len() && notes[i] == unlock;
        if i >= n1.len() + n2.len() {
            assert(n3[i - n1.len() - n2.len()] == unlock);
        } else if i >= n1.len() {
            assert(n2[i - n1.len()] == unlock);
        } else {
            assert(n1[i] == unlock);
        }
    }
    if notes.contains(relock) {
        let i = choose|i: int| 0 <= i < notes.len() && notes[i] == relock;
        if i >= n1.len() + n2.len() {
            assert(n3[i - n1.len() - n2.len()] == relock);
        } else if i >= n1.len() {
            assert(n2[i - n1.len()] == relock);
        } else {
            assert(n1[i] == relock);
        }
    }
}

/// How a tick moves the dwell counter, when it unlocks, and what progress it
/// reports.
pub proof fn lemma_step_dwell(l: PollLoop, s: InteractionLockState, sample: Option<Sample>)
    requires
        l.wf(),
        s.wf(),
    ensures
        ({
            let (l1, s1, raise, ignore, notes) = step(l, s, sample);
            &&& sample is None ==> l1.idle_ticks == l.idle_ticks
            &&& sample is Some && l1.idle_ticks > 0 ==> is_idle_hover(l, s, sample->0)
                && l1.idle_ticks == l.idle_ticks + 1
            &&& notes.contains(Notification::LockStateChanged(false)) ==> sample is Some
                && is_idle_hover(l, s, sample->0) && l.idle_ticks + 1 >= s.total_ticks()
            &&& sample is Some && contains(sample->0) && s.is_locked && s.enable_hover_unlock
                && !is_idle_hover(l, s, sample->0) ==> l1.idle_ticks == 0 && reported_progress(
                notes,
            ) == Some(no_progress(s))
            &&& sample is Some && !contains(sample->0) ==> l1.idle_ticks == 0
            &&& sample is Some && !contains(sample->0) && (l.was_hovering || l.idle_ticks > 0)
                ==> reported_progress(notes) == Some(no_progress(s))
            &&& sample is Some && is_idle_hover(l, s, sample->0) ==> reported_progress(notes)
                == Some(progress_at(s, l.idle_ticks + 1))
            &&& sample is Some && is_idle_hover(l, s, sample->0) && !notes.contains(
                Notification::LockStateChanged(false),
            ) ==> l1.idle_ticks == l.idle_ticks + 1
        }),
{
    if let Some(smp) = sample {
        lemma_step_sources(l, s, smp);
        let (l1, _raise) = on_top_step(l);
        let (l2, n1) = hover_step(l1, s, contains(smp));
        let (l3, s3, n2) = dwell_step(l2, s, smp);
        let (l4, s4, n3) = auto_lock_step(l3, s3, smp);
        let unlock = Notification::LockStateChanged(false);
        assert(l2.last_mouse_x == l.last_mouse_x && l2.last_mouse_y == l.last_mouse_y);
        assert(contains(smp) ==> l2.idle_ticks == l.idle_ticks);
        assert(forall|i: int| 0 <= i < n3.len() ==> !(n3[i] is UnlockProgress));
        if contains(smp) && s.is_locked && s.enable_hover_unlock {
            let idle: int = if is_jitter(smp.cursor_x - l.last_mouse_x, smp.cursor_y - l.last_mouse_y) {
                l.idle_ticks + 1
            } else {
                0
            };
            let p = progress_at(s, idle);
            if idle >= s.total_ticks() {
                assert(n1 + n2 + n3 =~= n1.push(Notification::UnlockProgress(p)) + (seq![unlock] + n3));
                lemma_reported_progress_tail(n1, p, seq![unlock] + n3);
            } else {
                assert(n1 + n2 + n3 =~= n1.push(Notification::UnlockProgress(p)) + n3);
                lemma_reported_progress_tail(n1, p, n3);
            }
        } else if !contains(smp) && (l.was_hovering || l.idle_ticks > 0) {
            let z = no_progress(s);
            if l1.was_hovering {
                assert(n1 + n2 + n3 =~= seq![Notification::HoverChanged(false)].push(
                    Notification::UnlockProgress(z),
                ) + n3);
                lemma_reported_progress_tail(seq![Notification::HoverChanged(false)], z, n3);
            } else {
                assert(n1 + n2 + n3 =~= n1.push(Notification::UnlockProgress(z)) + n3);
                lemma_reported_progress_tail(n1, z, n3);
            }
        }
    }
}

/// The idle timeout locks only an open overlay with auto-lock on, and its
/// counter stays at zero otherwise.
pub proof fn lemma_step_auto_lock(l: PollLoop, s: InteractionLockState, sample: Option<Sample>)
    requires
        l.wf(),
        s.wf(),
    ensures
        ({
            let (l1, s1, raise, ignore, notes) = step(l, s, sample);
            &&& notes.contains(Notification::LockStateChanged(true)) ==> s.enable_auto_lock && (
            !s.is_locked || notes.contains(Notification::LockStateChanged(false)))
            &&& sample is Some && (!s.enable_auto_lock || (s.is_locked && !notes.contains(
                Notification::LockStateChanged(false),
            ))) ==> l1.auto_lock_idle_ticks == 0
            &&& !notes.contains(Notification::LockStateChanged(false)) && !notes.contains(
                Notification::LockStateChanged(true),
            ) ==> s1.is_locked == s.is_locked
            &&& notes.contains(Notification::LockStateChanged(false)) ==> l1.idle_ticks == 0 && (
            !s1.is_locked || notes.contains(Notification::LockStateChanged(true)))
        }),
{
    if let Some(smp) = sample {
        lemma_step_sources(l, s, smp);
    }
}

impl PollLoop {
    /// Runs one tick against the shared record. `sample` is this tick's reading
    /// of the cursor and the window, `None` when the platform gave none.
    pub fn tick(&mut self, state: &mut InteractionLockState, sample: Option<Sample>) -> (r:
        TickEffects)
        requires
            old(self).wf(),
            old(state).wf(),
        ensures
            (*final(self), *final(state), r.raise_on_top, r.ignore_cursor_events, r.notifications@)
                == step(*old(self), *old(state), sample),
            final(self).wf(),
            final(state).wf(),
            same_settings(*old(state), *final(state)),
            sample is Some ==> final(state).is_interactive == !final(state).is_locked,
            sample is None ==> *final(state) == *old(state) && r.ignore_cursor_events is None
                && r.notifications@.len() == 0,
            !r.notifications@.contains(Notification::LockStateChanged(false))
                && !r.notifications@.contains(Notification::LockStateChanged(true))
                ==> final(state).is_locked == old(state).is_locked,
            sample is None ==> final(self).idle_ticks == old(self).idle_ticks,
            sample is Some && final(self).idle_ticks > 0 ==> is_idle_hover(
                *old(self),
                *old(state),
                sample->0,
            ) && final(self).idle_ticks == old(self).idle_ticks + 1,
            r.notifications@.contains(Notification::LockStateChanged(false)) ==> sample is Some
                && is_idle_hover(*old(self), *old(state), sample->0) && old(self).idle_ticks + 1
                >= old(state).total_ticks(),
            sample is Some && contains(sample->0) && old(state).is_locked
                && old(state).enable_hover_unlock && !is_idle_hover(
                *old(self),
                *old(state),
                sample->0,
            ) ==> final(self).idle_ticks == 0 && reported_progress(r.notifications@) == Some(
                no_progress(*old(state)),
            ),
            sample is Some && !contains(sample->0) ==> final(self).idle_ticks == 0,
            sample is Some && !contains(sample->0) && (old(self).was_hovering
                || old(self).idle_ticks > 0) ==> reported_progress(r.notifications@) == Some(
                no_progress(*old(state)),
            ),
            sample is Some && is_idle_hover(*old(self), *old(state), sample->0)
                ==> reported_progress(r.notifications@) == Some(
                progress_at(*old(state), old(self).idle_ticks + 1),
            ),
            r.notifications@.contains(Notification::LockStateChanged(true))
                ==> old(state).enable_auto_lock && (!old(state).is_locked
                || r.notifications@.contains(Notification::LockStateChanged(false))),
            sample is Some && (!old(state).enable_auto_lock || (old(state).is_locked
                && !r.notifications@.contains(Notification::LockStateChanged(false))))
                ==> final(self).auto_lock_idle_ticks == 0,
            r.notifications@.contains(Notification::LockStateChanged(false))
                ==> final(self).idle_ticks == 0 && (!final(state).is_locked
                || r.notifications@.contains(Notification::LockStateChanged(true))),
    {
        proof {
            lemma_step_bounds(*self, *state, sample);
            lemma_step_dwell(*self, *state, sample);
            lemma_step_auto_lock(*self, *state, sample);
        }
        let raise = self.advance_on_top();
        let mut notes: Vec<Notification> = Vec::new();
        let ignore = match sample {
            None => None,
            Some(smp) => {
                let hovering = smp.cursor_inside();
                self.track_hover(&*state, hovering, &mut notes);
                self.track_dwell(state, &smp, hovering, &mut notes);
                self.track_auto_lock(state, &smp, &mut notes);
                assert(notes@ =~= hover_step(on_top_step(*old(self)).0, *old(state), hovering).1
                    + dwell_step(
                    hover_step(on_top_step(*old(self)).0, *old(state), hovering).0,
                    *old(state),
                    smp,
                ).2 + auto_lock_step(
                    dwell_step(
                        hover_step(on_top_step(*old(self)).0, *old(state), hovering).0,
                        *old(state),
                        smp,
                    ).0,
                    dwell_step(
                        hover_step(on_top_step(*old(self)).0, *old(state), hovering).0,
                        *old(state),
                        smp,
                    ).1,
                    smp,
                ).2);
                state.sync_interactive()
            },
        };
        TickEffects { raise_on_top: raise, ignore_cursor_events: ignore, notifications: notes }
    }
}

} // verus!
