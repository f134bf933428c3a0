use cap_ime_switch::caps::Action;
use cap_ime_switch::hook::{
    HookOutcome, KeyHook, TimerOp, LLKHF_INJECTED, VK_CAPITAL, WM_KEYDOWN, WM_KEYUP,
    WM_SYSKEYDOWN,
};

const VK_A: u32 = 0x41;

fn ev(h: &mut KeyHook, msg: usize, vk: u32) -> HookOutcome {
    h.hook_event(0, msg, vk, 0, false)
}

#[test]
fn short_press_switches_ime_and_stops_timer() {
    let mut h = KeyHook::new();
    let down = ev(&mut h, WM_KEYDOWN, VK_CAPITAL);
    assert_eq!(down, HookOutcome { swallow: true, action: Action::Nothing, timer: TimerOp::Start });
    let up = ev(&mut h, WM_KEYUP, VK_CAPITAL);
    assert_eq!(up, HookOutcome { swallow: true, action: Action::SwitchIme, timer: TimerOp::Stop });
}

#[test]
fn long_press_toggles_caps_on_timer() {
    let mut h = KeyHook::new();
    ev(&mut h, WM_KEYDOWN, VK_CAPITAL);
    // auto-repeat: swallowed, timer untouched
    let rep = ev(&mut h, WM_KEYDOWN, VK_CAPITAL);
    assert_eq!(rep, HookOutcome { swallow: true, action: Action::Nothing, timer: TimerOp::Unchanged });
    assert_eq!(h.on_timer_tick(), (Action::ToggleCapsLock, TimerOp::Stop));
    assert_eq!(h.on_timer_tick(), (Action::Nothing, TimerOp::Unchanged));
    let up = ev(&mut h, WM_KEYUP, VK_CAPITAL);
    assert_eq!(up, HookOutcome { swallow: true, action: Action::Nothing, timer: TimerOp::Unchanged });
}

#[test]
fn other_key_cancels_and_is_not_swallowed() {
    let mut h = KeyHook::new();
    ev(&mut h, WM_KEYDOWN, VK_CAPITAL);
    let other = ev(&mut h, WM_SYSKEYDOWN, VK_A);
    assert_eq!(other, HookOutcome { swallow: false, action: Action::Nothing, timer: TimerOp::Stop });
    assert_eq!(h.on_timer_tick(), (Action::Nothing, TimerOp::Unchanged));
    let up = ev(&mut h, WM_KEYUP, VK_CAPITAL);
    assert_eq!(up, HookOutcome { swallow: true, action: Action::Nothing, timer: TimerOp::Unchanged });
    // an idle other key changes nothing
    let idle = ev(&mut h, WM_KEYDOWN, VK_A);
    assert_eq!(idle, HookOutcome { swallow: false, action: Action::Nothing, timer: TimerOp::Unchanged });
}

#[test]
fn injected_excluded_and_non_action_events_pass_through() {
    let mut h = KeyHook::new();
    let pass = HookOutcome { swallow: false, action: Action::Nothing, timer: TimerOp::Unchanged };
    assert_eq!(h.hook_event(0, WM_KEYDOWN, VK_CAPITAL, LLKHF_INJECTED, false), pass);
    assert_eq!(h.hook_event(0, WM_KEYDOWN, VK_CAPITAL, 0, true), pass);
    assert_eq!(h.hook_event(3, WM_KEYDOWN, VK_CAPITAL, 0, false), pass);
    // nothing started: a real press still works
    let down = ev(&mut h, WM_KEYDOWN, VK_CAPITAL);
    assert_eq!(down.timer, TimerOp::Start);
    // exclusion only concerns CapsLock
    let other = h.hook_event(0, WM_KEYDOWN, VK_A, 0, true);
    assert_eq!(other.timer, TimerOp::Stop);
}

#[test]
fn key_down_and_up_helpers() {
    let mut h = KeyHook::new();
    assert_eq!(h.on_key_down(VK_CAPITAL), (None, TimerOp::Start));
    assert_eq!(h.on_key_up(VK_A), (None, TimerOp::Unchanged));
    assert_eq!(h.on_key_up(VK_CAPITAL), (Some(Action::SwitchIme), TimerOp::Stop));
    assert_eq!(h.on_key_up(VK_CAPITAL), (None, TimerOp::Unchanged));
}

#[test]
fn only_the_injected_bit_lets_caps_through() {
    let mut h = KeyHook::new();
    // bit 0 (extended key) is not the injected bit
    let down = h.hook_event(0, WM_KEYDOWN, VK_CAPITAL, 0x01, false);
    assert_eq!(down, HookOutcome { swallow: true, action: Action::Nothing, timer: TimerOp::Start });
    // injected with other bits set: passes through, state untouched
    let injected_up = h.hook_event(0, WM_KEYUP, VK_CAPITAL, 0x91, false);
    assert_eq!(injected_up, HookOutcome { swallow: false, action: Action::Nothing, timer: TimerOp::Unchanged });
    assert_eq!(h.on_timer_tick(), (Action::ToggleCapsLock, TimerOp::Stop));
}

#[test]
fn timer_starts_and_stops_in_turn() {
    // Starts and stops alternate over a mixed sequence of events.
    let mut h = KeyHook::new();
    let mut running = false;
    let events: [(usize, u32); 10] = [
        (WM_KEYDOWN, VK_CAPITAL),
        (WM_KEYDOWN, VK_CAPITAL),
        (WM_KEYDOWN, VK_A),
        (WM_KEYUP, VK_CAPITAL),
        (WM_KEYDOWN, VK_CAPITAL),
        (WM_KEYUP, VK_A),
        (WM_KEYUP, VK_CAPITAL),
        (WM_KEYDOWN, VK_CAPITAL),
        (0x0200, VK_CAPITAL),
        (WM_KEYUP, VK_CAPITAL),
    ];
    for (msg, vk) in events {
        let out = ev(&mut h, msg, vk);
        match out.timer {
            TimerOp::Start => {
                assert!(!running);
                running = true;
            }
            TimerOp::Stop => {
                assert!(running);
                running = false;
            }
            TimerOp::Unchanged => {}
        }
    }
    assert!(!running);
}
