use cap_ime_switch::caps::{Action, CapsWatcher};

#[test]
fn tap_within_threshold_switches_ime() {
    let mut w = CapsWatcher::new();
    assert!(w.on_caps_down(), "first press starts the timer");
    assert_eq!(w.on_caps_up(), Action::SwitchIme);
    assert_eq!(w.on_caps_up(), Action::Nothing, "a second release does nothing");
}

#[test]
fn hold_past_threshold_toggles_caps() {
    let mut w = CapsWatcher::new();
    assert!(w.on_caps_down());
    assert_eq!(w.on_timer(), Action::ToggleCapsLock, "timer expiry means a long press");
    // further ticks must not fire again
    assert_eq!(w.on_timer(), Action::Nothing);
    assert_eq!(w.on_caps_up(), Action::Nothing, "release after a long press does nothing");
}

#[test]
fn auto_repeat_down_does_not_restart_timer() {
    let mut w = CapsWatcher::new();
    assert!(w.on_caps_down());
    assert!(!w.on_caps_down(), "repeated key-down must not restart the timer");
    assert_eq!(w.on_timer(), Action::ToggleCapsLock);
}

#[test]
fn other_key_cancels_pending_action() {
    let mut w = CapsWatcher::new();
    w.on_caps_down();
    assert!(w.on_other_key(), "another key while held cancels");
    assert_eq!(w.on_timer(), Action::Nothing, "no long press after a cancel");
    assert_eq!(w.on_caps_up(), Action::Nothing, "no short press after a cancel");
}

#[test]
fn other_key_while_idle_does_nothing() {
    let mut w = CapsWatcher::new();
    assert!(!w.on_other_key(), "other keys do nothing while idle");
    // a normal short press still works afterwards
    assert!(w.on_caps_down());
    assert_eq!(w.on_caps_up(), Action::SwitchIme);
}

#[test]
fn timer_after_release_is_noop() {
    let mut w = CapsWatcher::new();
    w.on_caps_down();
    w.on_caps_up();
    assert_eq!(w.on_timer(), Action::Nothing, "a tick after release does nothing");
}

#[test]
fn repeated_cycle_returns_to_idle() {
    let mut w = CapsWatcher::new();
    // short press
    assert!(w.on_caps_down());
    assert_eq!(w.on_caps_up(), Action::SwitchIme);
    // long press
    assert!(w.on_caps_down());
    assert_eq!(w.on_timer(), Action::ToggleCapsLock);
    assert_eq!(w.on_caps_up(), Action::Nothing);
    // short press again
    assert!(w.on_caps_down());
    assert_eq!(w.on_caps_up(), Action::SwitchIme);
}

#[test]
fn default_watcher_is_idle() {
    let mut w = CapsWatcher::default();
    assert_eq!(w.on_timer(), Action::Nothing);
    assert!(w.on_caps_down());
}

#[test]
fn each_press_fires_at_most_once() {
    // a long press followed by stray ticks, other keys and releases
    let mut w = CapsWatcher::new();
    let mut fired = 0;
    let mut presses = 0;
    if w.on_caps_down() {
        presses += 1;
    }
    for _ in 0..3 {
        if w.on_timer() != Action::Nothing {
            fired += 1;
        }
        w.on_other_key();
        if !w.on_caps_down() {
            // auto-repeat while held
        }
    }
    if w.on_caps_up() != Action::Nothing {
        fired += 1;
    }
    if w.on_caps_up() != Action::Nothing {
        fired += 1;
    }
    assert_eq!(presses, 1);
    assert_eq!(fired, 1);
}

#[test]
fn cancelled_press_never_fires() {
    let mut w = CapsWatcher::new();
    w.on_caps_down();
    w.on_other_key();
    assert!(!w.on_other_key(), "already cancelled");
    assert!(!w.on_caps_down(), "still the same press");
    assert_eq!(w.on_timer(), Action::Nothing);
    assert_eq!(w.on_caps_up(), Action::Nothing);
}
