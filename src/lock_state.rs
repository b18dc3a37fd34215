//! The shared lock record and the commands that change it.
use vstd::prelude::*;

verus! {

/// Poll-loop ticks in one second (one tick lasts 100 ms).
pub const TICKS_PER_SECOND: u32 = 10;

/// How far the unlock dwell has come: `elapsed_ticks` of `hold_ticks`, that is
/// `100 * elapsed_ticks / hold_ticks` percent.
#[derive(Clone, Copy, Debug, PartialEq, Eq, Structural)]
pub struct Progress {
    pub elapsed_ticks: u32,
    pub hold_ticks: u32,
}

/// A notification for the display surface.
#[derive(Clone, Copy, Debug, PartialEq, Eq, Structural)]
pub enum Notification {
    /// The cursor entered (`true`) or left (`false`) the overlay.
    HoverChanged(bool),
    /// Progress of the dwell that unlocks the overlay.
    UnlockProgress(Progress),
    /// The overlay was locked (`true`) or unlocked (`false`).
    LockStateChanged(bool),
}

/// The record shared by the poll loop and the command layer.
///
/// Times are counted in poll ticks. The hold time is at least one tick: a hold
/// of zero would leave the unlock progress undefined, so setters clamp it.
#[derive(Clone, Copy, Debug, PartialEq, Eq, Structural)]
pub struct InteractionLockState {
    /// The overlay passes all pointer events through to the desktop.
    pub is_locked: bool,
    /// The value last applied to the window's pointer handling (`true`: it takes pointer input).
    pub is_interactive: bool,
    /// Dwell ticks before progress starts.
    pub unlock_wait_ticks: u32,
    /// Dwell ticks after the wait that complete an unlock.
    pub unlock_hold_ticks: u32,
    pub enable_hover_unlock: bool,
    pub enable_auto_lock: bool,
    /// Ticks without window movement before an open overlay locks itself.
    pub auto_lock_delay_ticks: u32,
}

/// The hold time as stored: at least one tick.
pub open spec fn clamp_hold(hold_ticks: u32) -> u32 {
    if hold_ticks == 0 { 1 } else { hold_ticks }
}

impl InteractionLockState {
    pub open spec fn wf(&self) -> bool {
        self.unlock_hold_ticks >= 1
    }

    /// Ticks of uninterrupted dwell that complete an unlock.
    pub open spec fn total_ticks(&self) -> int {
        self.unlock_wait_ticks + self.unlock_hold_ticks
    }

    /// A locked, click-through record with the given timings.
    pub fn new(
        unlock_wait_ticks: u32,
        unlock_hold_ticks: u32,
        enable_hover_unlock: bool,
        enable_auto_lock: bool,
        auto_lock_delay_ticks: u32,
    ) -> (r: Self)
        ensures
            r.wf(),
            r.is_locked,
            !r.is_interactive,
            r.unlock_wait_ticks == unlock_wait_ticks,
            r.unlock_hold_ticks == clamp_hold(unlock_hold_ticks),
            r.enable_hover_unlock == enable_hover_unlock,
            r.enable_auto_lock == enable_auto_lock,
            r.auto_lock_delay_ticks == auto_lock_delay_ticks,
    {
        InteractionLockState {
            is_locked: true,
            is_interactive: false,
            unlock_wait_ticks,
            unlock_hold_ticks: if unlock_hold_ticks == 0 { 1 } else { unlock_hold_ticks },
            enable_hover_unlock,
            enable_auto_lock,
            auto_lock_delay_ticks,
        }
    }

    /// Sets the lock flag. Returns the notification owed to the display
    /// surface: one when the flag changed, none when it already had that value.
    pub fn set_lock_state(&mut self, locked: bool) -> (r: Option<Notification>)
        ensures
            *final(self) == (InteractionLockState { is_locked: locked, ..*old(self) }),
            r == (if locked == old(self).is_locked {
                None
            } else {
                Some(Notification::LockStateChanged(locked))
            }),
            locked == old(self).is_locked ==> *final(self) == *old(self),
    {
        if self.is_locked == locked {
            None
        } else {
            self.is_locked = locked;
            Some(Notification::LockStateChanged(locked))
        }
    }

    /// Flips the lock flag and returns the notification of the new value.
    pub fn toggle_lock(&mut self) -> (r: Notification)
        ensures
            *final(self) == (InteractionLockState { is_locked: !old(self).is_locked, ..*old(self) }),
            r == Notification::LockStateChanged(!old(self).is_locked),
    {
        self.is_locked = !self.is_locked;
        Notification::LockStateChanged(self.is_locked)
    }

    /// Sets the dwell timings; a hold of zero ticks is stored as one tick.
    pub fn set_unlock_timing(&mut self, wait_ticks: u32, hold_ticks: u32)
        ensures
            *final(self) == (InteractionLockState {
                unlock_wait_ticks: wait_ticks,
                unlock_hold_ticks: clamp_hold(hold_ticks),
                ..*old(self)
            }),
            final(self).wf(),
    {
        self.unlock_wait_ticks = wait_ticks;
        self.unlock_hold_ticks = if hold_ticks == 0 { 1 } else { hold_ticks };
    }

    pub fn set_hover_unlock_enabled(&mut self, enabled: bool)
        ensures
            *final(self) == (InteractionLockState { enable_hover_unlock: enabled, ..*old(self) }),
    {
        self.enable_hover_unlock = enabled;
    }

    pub fn set_auto_lock_enabled(&mut self, enabled: bool)
        ensures
            *final(self) == (InteractionLockState { enable_auto_lock: enabled, ..*old(self) }),
    {
        self.enable_auto_lock = enabled;
    }

    pub fn set_auto_lock_delay(&mut self, delay_ticks: u32)
        ensures
            *final(self) == (InteractionLockState { auto_lock_delay_ticks: delay_ticks, ..*old(self) }),
    {
        self.auto_lock_delay_ticks = delay_ticks;
    }

    /// Brings `is_interactive` in line with the lock flag. Returns the value to
    /// apply to the window's ignore-cursor-events setting, or `None` when the
    /// window already has it.
    pub fn sync_interactive(&mut self) -> (r: Option<bool>)
        ensures
            final(self).is_interactive == !final(self).is_locked,
            *final(self) == (InteractionLockState { is_interactive: !old(self).is_locked, ..*old(self) }),
            r == (if old(self).is_interactive == !old(self).is_locked {
                None
            } else {
                Some(old(self).is_locked)
            }),
    {
        if self.is_interactive == !self.is_locked {
            None
        } else {
            self.is_interactive = !self.is_locked;
            Some(self.is_locked)
        }
    }
}

impl Default for InteractionLockState {
    /// Locked, 1.2 s wait, 3 s hold, both features on, 3 s auto-lock delay.
    fn default() -> (r: Self)
        ensures
            r == (InteractionLockState {
                is_locked: true,
                is_interactive: false,
                unlock_wait_ticks: 12,
                unlock_hold_ticks: 30,
                enable_hover_unlock: true,
                enable_auto_lock: true,
                auto_lock_delay_ticks: 30,
            }),
    {
        InteractionLockState::new(12, 30, true, true, 30)
    }
}

} // verus!
