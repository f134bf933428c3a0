//! Decisions of the low-level keyboard hook and of the long-press timer.
//!
//! The hook sees every key event. It feeds CapsLock events (and other keys
//! pressed while CapsLock is held) to the [`CapsWatcher`], swallows the raw
//! CapsLock events, and tells the caller which action to inject and what to do
//! with the OS timer that measures the long press. The caller performs those
//! effects; this module only decides.

use vstd::prelude::*;
use crate::caps::{
    caps_down_step, caps_up_step, other_key_step, timer_step, undecided, Action, CapsWatcher,
    State,
};

verus! {

/// Virtual-key code of CapsLock.
pub const VK_CAPITAL: u32 = 0x14;
/// Virtual-key code of the left Windows key.
pub const VK_LWIN: u16 = 0x5B;
/// Virtual-key code of the space bar.
pub const VK_SPACE: u16 = 0x20;
/// Hook code meaning "this call carries a key event".
pub const HC_ACTION: i32 = 0;
/// Flag bit set on events that were injected (for example by ourselves).
pub const LLKHF_INJECTED: u32 = 0x10;
/// Key-down message.
pub const WM_KEYDOWN: usize = 0x0100;
/// Key-up message.
pub const WM_KEYUP: usize = 0x0101;
/// Key-down message while Alt is held.
pub const WM_SYSKEYDOWN: usize = 0x0104;
/// Key-up message while Alt is held.
pub const WM_SYSKEYUP: usize = 0x0105;

/// What must happen to the OS long-press timer.
#[derive(Debug, Clone, Copy, PartialEq, Eq, Structural)]
pub enum TimerOp {
    /// Leave the timer as it is.
    Unchanged,
    /// Start the timer (with the configured long-press threshold).
    Start,
    /// Stop the timer.
    Stop,
}

/// What the hook decided about one key event.
#[derive(Debug, Clone, Copy, PartialEq, Eq, Structural)]
pub struct HookOutcome {
    /// Swallow the event (do not pass it on to the next hook).
    pub swallow: bool,
    /// Action to inject.
    pub action: Action,
    /// What to do with the long-press timer.
    pub timer: TimerOp,
}

/// Hook state: the press state machine and whether the OS timer is running.
pub struct KeyHook {
    watcher: CapsWatcher,
    timer_armed: bool,
}

/// The message is a key-down (plain or with Alt).
pub open spec fn is_key_down(msg: usize) -> bool {
    msg == WM_KEYDOWN || msg == WM_SYSKEYDOWN
}

/// The message is a key-up (plain or with Alt).
pub open spec fn is_key_up(msg: usize) -> bool {
    msg == WM_KEYUP || msg == WM_SYSKEYUP
}

/// The event was injected rather than typed (bit 4 of the flags).
pub open spec fn is_injected(flags: u32) -> bool {
    (flags / 16) % 2 == 1
}

/// The hook leaves the event entirely alone: not a key event, an injected
/// event, or CapsLock in an excluded program (where it keeps its own meaning).
pub open spec fn passes_through(code: i32, vk: u32, flags: u32, excluded: bool) -> bool {
    code != HC_ACTION || is_injected(flags) || (vk == VK_CAPITAL && excluded)
}

/// Timer state after applying `op` to a timer whose running state is `armed`.
pub open spec fn timer_after(armed: bool, op: TimerOp) -> bool {
    match op {
        TimerOp::Unchanged => armed,
        TimerOp::Start => true,
        TimerOp::Stop => false,
    }
}

/// One hook event, in terms of the press state alone: the next state and the
/// decision. (The timer runs exactly while the state is `Held`.)
pub open spec fn hook_step(s: State, code: i32, msg: usize, vk: u32, flags: u32, excluded: bool) -> (
    State,
    HookOutcome,
) {
    let unchanged = HookOutcome { swallow: false, action: Action::Nothing, timer: TimerOp::Unchanged };
    if passes_through(code, vk, flags, excluded) {
        (s, unchanged)
    } else if vk == VK_CAPITAL {
        if is_key_down(msg) {
            let (n, started) = caps_down_step(s);
            (n, HookOutcome {
                swallow: true,
                action: Action::Nothing,
                timer: if started { TimerOp::Start } else { TimerOp::Unchanged },
            })
        } else if is_key_up(msg) {
            let (n, a) = caps_up_step(s);
            (n, HookOutcome {
                swallow: true,
                action: a,
                timer: if s == State::Held { TimerOp::Stop } else { TimerOp::Unchanged },
            })
        } else {
            (s, HookOutcome { swallow: true, action: Action::Nothing, timer: TimerOp::Unchanged })
        }
    } else if is_key_down(msg) {
        let (n, cancelled) = other_key_step(s);
        (n, HookOutcome {
            swallow: false,
            action: Action::Nothing,
            timer: if cancelled { TimerOp::Stop } else { TimerOp::Unchanged },
        })
    } else {
        (s, unchanged)
    }
}

/// The hook never starts the timer while it runs nor stops it while it is
/// stopped: a `Start` only comes while no press is undecided and leads to a
/// held press, a `Stop` only while a press is undecided and leads out of it.
/// (With the timer running exactly while a press is undecided.)
pub proof fn lemma_timer_ops_match_state(
    s: State,
    code: i32,
    msg: usize,
    vk: u32,
    flags: u32,
    excluded: bool,
)
    ensures
        ({
            let (n, out) = hook_step(s, code, msg, vk, flags, excluded);
            &&& out.timer == TimerOp::Start ==> s != State::Held && n == State::Held
            &&& out.timer == TimerOp::Stop ==> s == State::Held && n != State::Held
            &&& out.timer == TimerOp::Unchanged ==> (s == State::Held) == (n == State::Held)
            &&& timer_matches(timer_after(s == State::Held, out.timer), n)
        }),
        ({
            let (n, a) = timer_step(s);
            &&& timer_matches(timer_after(s == State::Held, if s == State::Held {
                TimerOp::Stop
            } else {
                TimerOp::Unchanged
            }), n)
        }),
{
}

/// A CapsLock press interrupted by any other key does nothing: from no
/// press, CapsLock down, then a real (not injected) key-down of any other key
/// `vk`, then CapsLock up asks for no action, leaves no press pending and
/// ends with the timer stopped; without the other key the same press
/// switches the input method.
pub proof fn lemma_other_key_cancels_press(vk: u32, other_msg: usize, up_msg: usize, excluded: bool)
    requires
        vk != VK_CAPITAL,
        is_key_down(other_msg),
        is_key_up(up_msg),
    ensures
        ({
            let (s1, o1) = hook_step(State::Idle, HC_ACTION, WM_KEYDOWN, VK_CAPITAL, 0, false);
            let (s2, o2) = hook_step(s1, HC_ACTION, other_msg, vk, 0, excluded);
            let (s3, o3) = hook_step(s2, HC_ACTION, up_msg, VK_CAPITAL, 0, false);
            &&& o1.timer == TimerOp::Start
            &&& o2.timer == TimerOp::Stop
            &&& s2 == State::Cancelled
            &&& o1.action == Action::Nothing && o2.action == Action::Nothing && o3.action
                == Action::Nothing
            &&& s3 == State::Idle
            &&& o3.timer == TimerOp::Unchanged
        }),
        ({
            let (s1, o1) = hook_step(State::Idle, HC_ACTION, WM_KEYDOWN, VK_CAPITAL, 0, false);
            let (s3, o3) = hook_step(s1, HC_ACTION, up_msg, VK_CAPITAL, 0, false);
            &&& o3.action == Action::SwitchIme
            &&& o3.timer == TimerOp::Stop
            &&& s3 == State::Idle
        }),
{
    assert(!is_injected(0));
}

/// One input of the hook state: a call of the keyboard hook or a tick of the
/// long-press timer.
#[derive(Debug, Clone, Copy, PartialEq, Eq, Structural)]
pub enum HookInput {
    /// A keyboard hook call with its arguments.
    Key { code: i32, msg: usize, vk: u32, flags: u32, excluded: bool },
    /// The long-press timer fired.
    TimerTick,
}

/// One input: next state, action asked for, timer operation.
pub open spec fn input_step(s: State, i: HookInput) -> (State, Action, TimerOp) {
    match i {
        HookInput::Key { code, msg, vk, flags, excluded } => {
            let (n, out) = hook_step(s, code, msg, vk, flags, excluded);
            (n, out.action, out.timer)
        },
        HookInput::TimerTick => (
            timer_step(s).0,
            timer_step(s).1,
            if s == State::Held {
                TimerOp::Stop
            } else {
                TimerOp::Unchanged
            },
        ),
    }
}

/// State reached after the inputs `ins`.
pub open spec fn inputs_state(s: State, ins: Seq<HookInput>) -> State
    decreases ins.len(),
{
    if ins.len() == 0 {
        s
    } else {
        inputs_state(input_step(s, ins[0]).0, ins.drop_first())
    }
}

/// Actions other than `Nothing` asked for along the inputs `ins`.
pub open spec fn inputs_actions(s: State, ins: Seq<HookInput>) -> nat
    decreases ins.len(),
{
    if ins.len() == 0 {
        0
    } else {
        let (n, a, _) = input_step(s, ins[0]);
        (if a == Action::Nothing { 0nat } else { 1nat }) + inputs_actions(n, ins.drop_first())
    }
}

/// Timer starts (that is, CapsLock presses taken into account) along the
/// inputs `ins`.
pub open spec fn inputs_starts(s: State, ins: Seq<HookInput>) -> nat
    decreases ins.len(),
{
    if ins.len() == 0 {
        0
    } else {
        let (n, _, op) = input_step(s, ins[0]);
        (if op == TimerOp::Start { 1nat } else { 0nat }) + inputs_starts(n, ins.drop_first())
    }
}

/// Whatever the keys, the program and the timer do, the hook asks for at most
/// one action per CapsLock press it takes into account: never more actions
/// than timer starts (plus the press pending at the start).
pub proof fn lemma_hook_one_action_per_press(s: State, ins: Seq<HookInput>)
    ensures
        inputs_actions(s, ins) + undecided(inputs_state(s, ins)) <= inputs_starts(s, ins) + undecided(s),
        s != State::Held ==> inputs_actions(s, ins) <= inputs_starts(s, ins),
    decreases ins.len(),
{
    if ins.len() > 0 {
        lemma_hook_one_action_per_press(input_step(s, ins[0]).0, ins.drop_first());
    }
}

impl View for KeyHook {
    type V = State;

    closed spec fn view(&self) -> State {
        self.watcher@
    }
}

/// The timer runs exactly while a press is undecided.
pub open spec fn timer_matches(armed: bool, s: State) -> bool {
    armed == (s == State::Held)
}

impl KeyHook {
    /// Whether the OS long-press timer is running.
    pub closed spec fn timer_armed(&self) -> bool {
        self.timer_armed
    }

    /// Invariant: the timer runs exactly while a press is undecided.
    #[verifier::type_invariant]
    spec fn inv(self) -> bool {
        timer_matches(self.timer_armed, self.watcher@)
    }

    /// No press in progress, timer stopped.
    pub fn new() -> (h: Self)
        ensures
            h@ == State::Idle,
            !h.timer_armed(),
    {
        KeyHook { watcher: CapsWatcher::new(), timer_armed: false }
    }

    /// A key went down. CapsLock may start a press (and the timer); any other
    /// key cancels a pending press (and stops the timer). Never asks for an
    /// action.
    pub fn on_key_down(&mut self, vk: u32) -> (r: (Option<Action>, TimerOp))
        ensures
            r.0 is None,
            vk == VK_CAPITAL ==> final(self)@ == caps_down_step(old(self)@).0 && r.1 == (if caps_down_step(
                old(self)@,
            ).1 {
                TimerOp::Start
            } else {
                TimerOp::Unchanged
            }),
            vk != VK_CAPITAL ==> final(self)@ == other_key_step(old(self)@).0 && r.1 == (
            if other_key_step(old(self)@).1 {
                TimerOp::Stop
            } else {
                TimerOp::Unchanged
            }),
            final(self).timer_armed() == timer_after(old(self).timer_armed(), r.1),
            timer_matches(old(self).timer_armed(), old(self)@),
            timer_matches(final(self).timer_armed(), final(self)@),
    {
        proof {
            use_type_invariant(&*self);
        }
        let mut w = self.watcher;
        let armed = self.timer_armed;
        if vk == VK_CAPITAL {
            let started = w.on_caps_down();
            let op = if started && !armed {
                TimerOp::Start
            } else {
                TimerOp::Unchanged
            };
            *self = KeyHook { watcher: w, timer_armed: armed || started };
            (None, op)
        } else {
            let cancelled = w.on_other_key();
            let op = if cancelled && armed {
                TimerOp::Stop
            } else {
                TimerOp::Unchanged
            };
            *self = KeyHook { watcher: w, timer_armed: armed && !cancelled };
            (None, op)
        }
    }

    /// A key went up. Only CapsLock matters: it stops the timer and ends the
    /// press; a short press asks for `SwitchIme`.
    pub fn on_key_up(&mut self, vk: u32) -> (r: (Option<Action>, TimerOp))
        ensures
            vk != VK_CAPITAL ==> final(self)@ == old(self)@ && r == (None::<Action>, TimerOp::Unchanged),
            vk == VK_CAPITAL ==> final(self)@ == State::Idle && r.0 == (if old(self)@ == State::Held {
                Some(Action::SwitchIme)
            } else {
                None
            }) && r.1 == (if old(self)@ == State::Held {
                TimerOp::Stop
            } else {
                TimerOp::Unchanged
            }),
            final(self).timer_armed() == timer_after(old(self).timer_armed(), r.1),
            timer_matches(old(self).timer_armed(), old(self)@),
            timer_matches(final(self).timer_armed(), final(self)@),
    {
        proof {
            use_type_invariant(&*self);
        }
        if vk != VK_CAPITAL {
            return (None, TimerOp::Unchanged);
        }
        let mut w = self.watcher;
        let op = if self.timer_armed {
            TimerOp::Stop
        } else {
            TimerOp::Unchanged
        };
        let action = w.on_caps_up();
        *self = KeyHook { watcher: w, timer_armed: false };
        match action {
            Action::SwitchIme => (Some(Action::SwitchIme), op),
            _ => (None, op),
        }
    }

    /// The OS timer fired. A press still held becomes a long press: the timer
    /// stops and `ToggleCapsLock` is asked for.
    pub fn on_timer_tick(&mut self) -> (r: (Action, TimerOp))
        ensures
            (final(self)@, r.0) == timer_step(old(self)@),
            r.1 == (if old(self)@ == State::Held {
                TimerOp::Stop
            } else {
                TimerOp::Unchanged
            }),
            final(self).timer_armed() == timer_after(old(self).timer_armed(), r.1),
            timer_matches(old(self).timer_armed(), old(self)@),
            timer_matches(final(self).timer_armed(), final(self)@),
            old(self)@ == State::Held ==> r.0 == Action::ToggleCapsLock && final(self)@
                == State::LongFired,
            old(self)@ != State::Held ==> r.0 == Action::Nothing && final(self)@ == old(self)@,
    {
        proof {
            use_type_invariant(&*self);
        }
        let mut w = self.watcher;
        if w.on_timer() == Action::ToggleCapsLock {
            *self = KeyHook { watcher: w, timer_armed: false };
            (Action::ToggleCapsLock, TimerOp::Stop)
        } else {
            (Action::Nothing, TimerOp::Unchanged)
        }
    }

    /// One call of the low-level keyboard hook. `code`, `msg`, `vk` and
    /// `flags` are what the system passed; `excluded` tells whether the
    /// foreground program is on the exclusion list (only consulted for
    /// CapsLock). Raw CapsLock events are always swallowed unless they pass
    /// through; other keys never are.
    pub fn hook_event(&mut self, code: i32, msg: usize, vk: u32, flags: u32, excluded: bool) -> (r:
        HookOutcome)
        ensures
            (final(self)@, r) == hook_step(old(self)@, code, msg, vk, flags, excluded),
            final(self).timer_armed() == timer_after(old(self).timer_armed(), r.timer),
            r.swallow <==> (!passes_through(code, vk, flags, excluded) && vk == VK_CAPITAL),
            timer_matches(old(self).timer_armed(), old(self)@),
            timer_matches(final(self).timer_armed(), final(self)@),
            // Whatever its code, a key other than CapsLock pressed while a
            // press is held cancels that press and stops the timer; it never
            // asks for an action and is never swallowed.
            code == HC_ACTION && !is_injected(flags) && vk != VK_CAPITAL && is_key_down(msg)
                ==> {
                &&& old(self)@ == State::Held ==> final(self)@ == State::Cancelled && r.timer
                    == TimerOp::Stop
                &&& old(self)@ != State::Held ==> final(self)@ == old(self)@ && r.timer
                    == TimerOp::Unchanged
                &&& r.action == Action::Nothing
                &&& !r.swallow
            },
            // An event that passes through changes nothing.
            passes_through(code, vk, flags, excluded) ==> final(self)@ == old(self)@ && r
                == (HookOutcome {
                swallow: false,
                action: Action::Nothing,
                timer: TimerOp::Unchanged,
            }),
            // CapsLock going down starts a press and the timer when none is in
            // progress; its auto-repeats change nothing.
            code == HC_ACTION && !is_injected(flags) && vk == VK_CAPITAL && !excluded
                && is_key_down(msg) ==> {
                &&& old(self)@ == State::Idle ==> final(self)@ == State::Held && r.timer
                    == TimerOp::Start
                &&& old(self)@ != State::Idle ==> final(self)@ == old(self)@ && r.timer
                    == TimerOp::Unchanged
                &&& r.action == Action::Nothing
                &&& r.swallow
            },
            // Other keys going up change nothing.
            code == HC_ACTION && !is_injected(flags) && vk != VK_CAPITAL && !is_key_down(msg)
                ==> final(self)@ == old(self)@ && r.timer == TimerOp::Unchanged && r.action
                == Action::Nothing,
            // Releasing CapsLock ends the press; only a press still held (not
            // cancelled, not already long) switches the input method.
            code == HC_ACTION && !is_injected(flags) && vk == VK_CAPITAL && !excluded && is_key_up(
                msg,
            ) ==> {
                &&& final(self)@ == State::Idle
                &&& r.action == (if old(self)@ == State::Held {
                    Action::SwitchIme
                } else {
                    Action::Nothing
                })
            },
    {
        proof {
            use_type_invariant(&*self);
        }
        assert((flags & 0x10 == 0) == ((flags / 16) % 2 != 1)) by (bit_vector);
        if code == HC_ACTION && flags & LLKHF_INJECTED == 0 {
            let is_caps = vk == VK_CAPITAL;
            let skip = is_caps && excluded;
            if !skip {
                let (action, timer) = if msg == WM_KEYDOWN || msg == WM_SYSKEYDOWN {
                    self.on_key_down(vk)
                } else if msg == WM_KEYUP || msg == WM_SYSKEYUP {
                    self.on_key_up(vk)
                } else {
                    (None, TimerOp::Unchanged)
                };
                let act = match action {
                    Some(a) => a,
                    None => Action::Nothing,
                };
                return HookOutcome { swallow: is_caps, action: act, timer };
            }
        }
        HookOutcome { swallow: false, action: Action::Nothing, timer: TimerOp::Unchanged }
    }
}

/// The key events that carry out `action`, in order, each a virtual-key code
/// and whether it is a release: Win+Space switches the input method, a
/// CapsLock press and release toggles case, nothing sends nothing.
pub open spec fn key_events_spec(action: Action) -> Seq<(u16, bool)> {
    match action {
        Action::SwitchIme => seq![(VK_LWIN, false), (VK_SPACE, false), (VK_SPACE, true), (VK_LWIN, true)],
        Action::ToggleCapsLock => seq![(VK_CAPITAL as u16, false), (VK_CAPITAL as u16, true)],
        Action::Nothing => Seq::empty(),
    }
}

/// The key events to inject for `action`.
pub fn key_events(action: Action) -> (r: Vec<(u16, bool)>)
    ensures
        r@ == key_events_spec(action),
{
    match action {
        Action::SwitchIme => vec![(VK_LWIN, false), (VK_SPACE, false), (VK_SPACE, true), (VK_LWIN, true)],
        Action::ToggleCapsLock => vec![(0x14u16, false), (0x14u16, true)],
        Action::Nothing => Vec::new(),
    }
}

} // verus!
