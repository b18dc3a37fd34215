use ivlyrics_overlay::lock_state::{InteractionLockState, Notification, Progress};
use ivlyrics_overlay::poll::{PollLoop, Sample, TickEffects};

fn at(cursor_x: i32, cursor_y: i32) -> Sample {
    Sample { cursor_x, cursor_y, window_x: 0, window_y: 0, width: 200, height: 100 }
}

fn progress_of(effects: &TickEffects) -> Option<Progress> {
    effects.notifications.iter().rev().find_map(|n| match n {
        Notification::UnlockProgress(p) => Some(*p),
        _ => None,
    })
}

fn unlocked(effects: &TickEffects) -> bool {
    effects.notifications.contains(&Notification::LockStateChanged(false))
}

fn locked(effects: &TickEffects) -> bool {
    effects.notifications.contains(&Notification::LockStateChanged(true))
}

fn percent(p: Progress) -> u32 {
    p.elapsed_ticks * 100 / p.hold_ticks
}

#[test]
fn dwell_wait_one_second_hold_two() {
    let mut state = InteractionLockState::new(10, 20, true, true, 30);
    let mut poll = PollLoop::new();
    let first = poll.tick(&mut state, Some(at(50, 50)));
    assert!(first.notifications.contains(&Notification::HoverChanged(true)));
    assert_eq!(poll.idle_ticks, 0);
    for tick in 1..=30u32 {
        let effects = poll.tick(&mut state, Some(at(50, 50)));
        let p = progress_of(&effects).unwrap();
        if tick <= 10 {
            assert_eq!(p.elapsed_ticks, 0);
            assert!(!unlocked(&effects));
        }
        if tick == 15 {
            assert_eq!(p, Progress { elapsed_ticks: 5, hold_ticks: 20 });
            assert_eq!(percent(p), 25);
        }
        if tick < 30 {
            assert!(!unlocked(&effects));
            assert!(state.is_locked);
        } else {
            assert_eq!(percent(p), 100);
            assert!(unlocked(&effects));
            assert!(!state.is_locked);
            assert!(state.is_interactive);
            assert_eq!(effects.ignore_cursor_events, Some(false));
            assert_eq!(poll.idle_ticks, 0);
        }
    }
}

#[test]
fn move_beyond_jitter_resets_dwell() {
    let mut state = InteractionLockState::new(10, 20, true, true, 30);
    let mut poll = PollLoop::new();
    poll.tick(&mut state, Some(at(50, 50)));
    for _ in 0..25 {
        poll.tick(&mut state, Some(at(50, 50)));
    }
    assert_eq!(poll.idle_ticks, 25);
    let effects = poll.tick(&mut state, Some(at(56, 50)));
    assert_eq!(poll.idle_ticks, 0);
    assert_eq!(progress_of(&effects), Some(Progress { elapsed_ticks: 0, hold_ticks: 20 }));
    assert!(state.is_locked);
}

#[test]
fn small_jitter_keeps_dwell() {
    let mut state = InteractionLockState::new(10, 20, true, true, 30);
    let mut poll = PollLoop::new();
    poll.tick(&mut state, Some(at(50, 50)));
    poll.tick(&mut state, Some(at(50, 50)));
    poll.tick(&mut state, Some(at(53, 53)));
    assert_eq!(poll.idle_ticks, 2);
    poll.tick(&mut state, Some(at(56, 57)));
    assert_eq!(poll.idle_ticks, 0);
}

#[test]
fn auto_lock_after_idle_delay_fires_once() {
    let mut state = InteractionLockState::new(12, 30, true, true, 30);
    let mut poll = PollLoop::new();
    let away = Sample { cursor_x: 900, cursor_y: 900, window_x: 300, window_y: 200, width: 200, height: 100 };
    poll.tick(&mut state, Some(away));
    assert_eq!(state.set_lock_state(false), Some(Notification::LockStateChanged(false)));
    let mut fired = 0;
    for tick in 1..=50u32 {
        let effects = poll.tick(&mut state, Some(away));
        if locked(&effects) {
            fired += 1;
            assert_eq!(tick, 30);
        }
    }
    assert_eq!(fired, 1);
    assert!(state.is_locked);
    assert!(!state.is_interactive);
}

#[test]
fn window_move_restarts_auto_lock_count() {
    let mut state = InteractionLockState::new(12, 30, true, true, 3);
    let mut poll = PollLoop::new();
    let mut away = Sample { cursor_x: 900, cursor_y: 900, window_x: 300, window_y: 200, width: 200, height: 100 };
    poll.tick(&mut state, Some(away));
    state.set_lock_state(false);
    poll.tick(&mut state, Some(away));
    poll.tick(&mut state, Some(away));
    assert_eq!(poll.auto_lock_idle_ticks, 2);
    away.window_x = 310;
    let effects = poll.tick(&mut state, Some(away));
    assert_eq!(poll.auto_lock_idle_ticks, 0);
    assert!(!locked(&effects));
    assert!(!state.is_locked);
}

#[test]
fn hover_unlock_disabled_keeps_progress_at_zero() {
    let mut state = InteractionLockState::new(10, 20, false, true, 30);
    let mut poll = PollLoop::new();
    for _ in 0..200 {
        let effects = poll.tick(&mut state, Some(at(50, 50)));
        if let Some(p) = progress_of(&effects) {
            assert_eq!(p.elapsed_ticks, 0);
        }
        assert!(!unlocked(&effects));
        assert!(state.is_locked);
    }
    assert_eq!(poll.idle_ticks, 0);
}

#[test]
fn interactive_follows_lock_after_every_tick() {
    let mut state = InteractionLockState::new(2, 3, true, true, 4);
    let mut poll = PollLoop::new();
    let path = [at(10, 10), at(10, 10), at(10, 10), at(10, 10), at(10, 10), at(10, 10), at(500, 500)];
    for round in 0..6 {
        for s in path.iter() {
            poll.tick(&mut state, Some(*s));
            assert_eq!(state.is_interactive, !state.is_locked);
        }
        if round == 2 {
            state.toggle_lock();
            poll.tick(&mut state, Some(at(500, 500)));
            assert_eq!(state.is_interactive, !state.is_locked);
        }
    }
}

#[test]
fn unlock_needs_wait_plus_hold_ticks() {
    let mut state = InteractionLockState::new(3, 4, true, false, 30);
    let mut poll = PollLoop::new();
    poll.tick(&mut state, Some(at(20, 20)));
    let mut ticks = 0;
    loop {
        ticks += 1;
        let effects = poll.tick(&mut state, Some(at(20, 20)));
        if unlocked(&effects) {
            break;
        }
    }
    assert_eq!(ticks, 7);
}

#[test]
fn progress_rises_then_resets_on_leave() {
    let mut state = InteractionLockState::new(2, 10, true, true, 30);
    let mut poll = PollLoop::new();
    poll.tick(&mut state, Some(at(20, 20)));
    let mut last = 0;
    for _ in 0..8 {
        let p = progress_of(&poll.tick(&mut state, Some(at(20, 20)))).unwrap();
        assert!(p.elapsed_ticks >= last);
        last = p.elapsed_ticks;
    }
    assert_eq!(last, 6);
    let effects = poll.tick(&mut state, Some(at(300, 20)));
    assert!(effects.notifications.contains(&Notification::HoverChanged(false)));
    assert_eq!(progress_of(&effects), Some(Progress { elapsed_ticks: 0, hold_ticks: 10 }));
    let zeros = effects.notifications.iter().filter(|n| matches!(n, Notification::UnlockProgress(_))).count();
    assert_eq!(zeros, 1);
    assert_eq!(poll.idle_ticks, 0);
}

#[test]
fn auto_lock_disabled_never_fires() {
    let mut state = InteractionLockState::new(12, 30, true, false, 1);
    let mut poll = PollLoop::new();
    state.set_lock_state(false);
    for _ in 0..100 {
        let effects = poll.tick(&mut state, Some(at(900, 900)));
        assert!(!locked(&effects));
    }
    assert!(!state.is_locked);
    assert_eq!(poll.auto_lock_idle_ticks, 0);
}

#[test]
fn setting_current_lock_state_is_silent() {
    let mut state = InteractionLockState::default();
    let mut poll = PollLoop::new();
    poll.tick(&mut state, Some(at(900, 900)));
    let before = state;
    assert_eq!(state.set_lock_state(true), None);
    assert_eq!(state.set_lock_state(true), None);
    assert_eq!(state, before);
    let effects = poll.tick(&mut state, Some(at(900, 900)));
    assert!(effects.notifications.is_empty());
    assert_eq!(effects.ignore_cursor_events, None);
}

#[test]
fn on_top_every_fifth_tick() {
    let mut state = InteractionLockState::default();
    let mut poll = PollLoop::new();
    for tick in 1..=20u32 {
        let sample = if tick % 3 == 0 { None } else { Some(at(900, 900)) };
        let effects = poll.tick(&mut state, sample);
        assert_eq!(effects.raise_on_top, tick % 5 == 0);
    }
}

#[test]
fn missing_reading_changes_no_tracker() {
    let mut state = InteractionLockState::new(10, 20, true, true, 30);
    let mut poll = PollLoop::new();
    poll.tick(&mut state, Some(at(50, 50)));
    poll.tick(&mut state, Some(at(50, 50)));
    let effects = poll.tick(&mut state, None);
    assert!(effects.notifications.is_empty());
    assert_eq!(poll.idle_ticks, 1);
    assert!(poll.was_hovering);
}

#[test]
fn hover_edges_notify_once() {
    let mut state = InteractionLockState::default();
    let mut poll = PollLoop::new();
    let enter = poll.tick(&mut state, Some(at(199, 99)));
    assert_eq!(enter.notifications[0], Notification::HoverChanged(true));
    let stay = poll.tick(&mut state, Some(at(199, 99)));
    assert!(!stay.notifications.contains(&Notification::HoverChanged(true)));
    let edge = poll.tick(&mut state, Some(at(200, 99)));
    assert_eq!(edge.notifications[0], Notification::HoverChanged(false));
    let outside = poll.tick(&mut state, Some(at(200, 99)));
    assert!(outside.notifications.is_empty());
}

#[test]
fn zero_hold_is_clamped_to_one_tick() {
    let mut state = InteractionLockState::new(0, 0, true, true, 30);
    assert_eq!(state.unlock_hold_ticks, 1);
    state.set_unlock_timing(5, 0);
    assert_eq!(state.unlock_wait_ticks, 5);
    assert_eq!(state.unlock_hold_ticks, 1);
}

#[test]
fn toggle_and_setters() {
    let mut state = InteractionLockState::default();
    assert_eq!(state.unlock_wait_ticks, 12);
    assert_eq!(state.unlock_hold_ticks, 30);
    assert_eq!(state.auto_lock_delay_ticks, 30);
    assert_eq!(state.toggle_lock(), Notification::LockStateChanged(false));
    assert_eq!(state.toggle_lock(), Notification::LockStateChanged(true));
    state.set_hover_unlock_enabled(false);
    state.set_auto_lock_enabled(false);
    state.set_auto_lock_delay(7);
    assert!(!state.enable_hover_unlock);
    assert!(!state.enable_auto_lock);
    assert_eq!(state.auto_lock_delay_ticks, 7);
    state.is_locked = false;
    assert_eq!(state.sync_interactive(), Some(false));
    assert_eq!(state.sync_interactive(), None);
}

#[test]
fn cursor_inside_excludes_far_edges() {
    assert!(at(0, 0).cursor_inside());
    assert!(at(199, 99).cursor_inside());
    assert!(!at(200, 50).cursor_inside());
    assert!(!at(-1, 50).cursor_inside());
    let far = Sample { cursor_x: i32::MAX, cursor_y: 0, window_x: i32::MIN, window_y: 0, width: u32::MAX, height: 10 };
    assert!(!far.cursor_inside());
}

#[test]
fn tick_without_reading_leaves_record_alone() {
    let mut state = InteractionLockState::default();
    let mut poll = PollLoop::new();
    poll.tick(&mut state, Some(at(900, 900)));
    state.set_lock_state(false);
    let before = state;
    let effects = poll.tick(&mut state, None);
    assert_eq!(state, before);
    assert!(!state.is_interactive);
    assert_eq!(effects.ignore_cursor_events, None);
    assert!(effects.notifications.is_empty());
    let next = poll.tick(&mut state, Some(at(900, 900)));
    assert_eq!(next.ignore_cursor_events, Some(false));
    assert!(state.is_interactive);
}

#[test]
fn lock_command_holds_through_next_tick() {
    let mut state = InteractionLockState::new(12, 30, true, true, 30);
    let mut poll = PollLoop::new();
    poll.tick(&mut state, Some(at(900, 900)));
    state.set_lock_state(false);
    let effects = poll.tick(&mut state, Some(at(900, 900)));
    assert!(!state.is_locked);
    assert!(state.is_interactive);
    assert_eq!(effects.ignore_cursor_events, Some(false));
}
