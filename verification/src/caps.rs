//! CapsLock short/long press state machine.
//!
//! Pure logic, driven by four events:
//! - released before the long-press timer fires: short press, `SwitchIme`;
//! - still held when the timer fires: long press, `ToggleCapsLock`;
//! - released after the long press fired: nothing;
//! - another key pressed while CapsLock is held: the press is cancelled and
//!   its release does nothing.

use vstd::prelude::*;

verus! {

/// What the caller has to perform after an event.
#[derive(Debug, Clone, Copy, PartialEq, Eq, Structural)]
pub enum Action {
    /// Nothing to do.
    Nothing,
    /// Short press: switch the input method.
    SwitchIme,
    /// Long press: toggle CapsLock.
    ToggleCapsLock,
}

/// Phase of the current CapsLock press.
#[derive(Debug, Clone, Copy, PartialEq, Eq, Structural)]
pub enum State {
    /// No press in progress.
    Idle,
    /// CapsLock is down and the long-press timer is running.
    Held,
    /// The long press has fired; waiting for the release.
    LongFired,
    /// Another key was pressed while CapsLock was held; waiting for the release.
    Cancelled,
}

/// The state machine itself.
#[derive(Debug, Clone, Copy)]
pub struct CapsWatcher {
    state: State,
}

impl View for CapsWatcher {
    type V = State;

    closed spec fn view(&self) -> State {
        self.state
    }
}

/// Effect of a CapsLock key-down: the next state, and whether a press started
/// (so that the long-press timer must be started).
pub open spec fn caps_down_step(s: State) -> (State, bool) {
    match s {
        State::Idle => (State::Held, true),
        _ => (s, false),
    }
}

/// Effect of a CapsLock key-up: the next state and the action to perform.
pub open spec fn caps_up_step(s: State) -> (State, Action) {
    match s {
        State::Held => (State::Idle, Action::SwitchIme),
        _ => (State::Idle, Action::Nothing),
    }
}

/// Effect of the long-press timer expiring.
pub open spec fn timer_step(s: State) -> (State, Action) {
    match s {
        State::Held => (State::LongFired, Action::ToggleCapsLock),
        _ => (s, Action::Nothing),
    }
}

/// Effect of another key going down: the next state, and whether the pending
/// press was cancelled (so that the timer must be stopped).
pub open spec fn other_key_step(s: State) -> (State, bool) {
    match s {
        State::Held => (State::Cancelled, true),
        _ => (s, false),
    }
}

/// One input to the state machine, as the hook delivers them.
#[derive(Debug, Clone, Copy, PartialEq, Eq, Structural)]
pub enum CapsEvent {
    /// CapsLock went down.
    CapsDown,
    /// CapsLock went up.
    CapsUp,
    /// The long-press timer expired.
    Timer,
    /// Another key went down.
    OtherKey,
}

/// One transition: next state, action to perform, and whether a press started.
pub open spec fn step(s: State, e: CapsEvent) -> (State, Action, bool) {
    match e {
        CapsEvent::CapsDown => (caps_down_step(s).0, Action::Nothing, caps_down_step(s).1),
        CapsEvent::CapsUp => (caps_up_step(s).0, caps_up_step(s).1, false),
        CapsEvent::Timer => (timer_step(s).0, timer_step(s).1, false),
        CapsEvent::OtherKey => (other_key_step(s).0, Action::Nothing, false),
    }
}

/// State reached from `s` after the events `evs`.
pub open spec fn run_state(s: State, evs: Seq<CapsEvent>) -> State
    decreases evs.len(),
{
    if evs.len() == 0 {
        s
    } else {
        run_state(step(s, evs[0]).0, evs.drop_first())
    }
}

/// Number of actions other than `Nothing` emitted along the events `evs`.
pub open spec fn actions_fired(s: State, evs: Seq<CapsEvent>) -> nat
    decreases evs.len(),
{
    if evs.len() == 0 {
        0
    } else {
        let (n, a, _) = step(s, evs[0]);
        (if a == Action::Nothing { 0nat } else { 1nat }) + actions_fired(n, evs.drop_first())
    }
}

/// Number of presses started along the events `evs`.
pub open spec fn presses_started(s: State, evs: Seq<CapsEvent>) -> nat
    decreases evs.len(),
{
    if evs.len() == 0 {
        0
    } else {
        let (n, _, p) = step(s, evs[0]);
        (if p { 1nat } else { 0nat }) + presses_started(n, evs.drop_first())
    }
}

/// 1 while a press is pending a decision (it may still fire), else 0.
pub open spec fn undecided(s: State) -> nat {
    if s == State::Held { 1 } else { 0 }
}

/// Each press fires at most one action: along any sequence of events, the
/// actions emitted never outnumber the presses started (plus the press that
/// was already pending at the start). From `Idle`, at most one action per press;
/// a cancelled or already fired press never fires again.
pub proof fn lemma_at_most_one_action_per_press(s: State, evs: Seq<CapsEvent>)
    ensures
        actions_fired(s, evs) + undecided(run_state(s, evs)) <= presses_started(s, evs) + undecided(s),
        s != State::Held ==> actions_fired(s, evs) <= presses_started(s, evs),
    decreases evs.len(),
{
    if evs.len() > 0 {
        lemma_at_most_one_action_per_press(step(s, evs[0]).0, evs.drop_first());
    }
}

/// What a press does, event by event, from no press in progress: CapsLock
/// down starts a press (its auto-repeats change nothing); released before the
/// timer it switches the input method; when the timer fires first it toggles
/// case and its release then does nothing; another key pressed first cancels
/// it, so that neither the timer nor the release does anything.
pub proof fn lemma_press_outcomes()
    ensures
        step(State::Idle, CapsEvent::CapsDown) == (State::Held, Action::Nothing, true),
        step(State::Held, CapsEvent::CapsDown) == (State::Held, Action::Nothing, false),
        step(State::Held, CapsEvent::CapsUp) == (State::Idle, Action::SwitchIme, false),
        step(State::Held, CapsEvent::Timer) == (State::LongFired, Action::ToggleCapsLock, false),
        step(State::LongFired, CapsEvent::CapsUp) == (State::Idle, Action::Nothing, false),
        step(State::LongFired, CapsEvent::Timer) == (State::LongFired, Action::Nothing, false),
        step(State::LongFired, CapsEvent::OtherKey) == (State::LongFired, Action::Nothing, false),
        step(State::Held, CapsEvent::OtherKey) == (State::Cancelled, Action::Nothing, false),
        step(State::Cancelled, CapsEvent::CapsUp) == (State::Idle, Action::Nothing, false),
        step(State::Cancelled, CapsEvent::Timer) == (State::Cancelled, Action::Nothing, false),
        step(State::Cancelled, CapsEvent::CapsDown) == (State::Cancelled, Action::Nothing, false),
        forall|s: State, e: CapsEvent|
            #[trigger] step(s, e).1 != Action::Nothing ==> s == State::Held,
        forall|s: State| #[trigger] step(s, CapsEvent::CapsUp).0 == State::Idle,
{
}

impl Default for CapsWatcher {
    fn default() -> (w: Self)
        ensures
            w@ == State::Idle,
    {
        Self::new()
    }
}

impl CapsWatcher {
    /// A watcher with no press in progress.
    pub fn new() -> (w: Self)
        ensures
            w@ == State::Idle,
    {
        CapsWatcher { state: State::Idle }
    }

    /// CapsLock went down (not an injected event).
    /// Returns true when this starts a press, in which case the long-press
    /// timer must be started. Auto-repeated key-downs are ignored and do not
    /// restart the timer.
    pub fn on_caps_down(&mut self) -> (started: bool)
        ensures
            (final(self)@, started) == caps_down_step(old(self)@),
            started <==> old(self)@ == State::Idle,
            old(self)@ == State::Idle ==> final(self)@ == State::Held,
            old(self)@ != State::Idle ==> final(self)@ == old(self)@,
    {
        match self.state {
            State::Idle => {
                self.state = State::Held;
                true
            },
            _ => false,
        }
    }

    /// CapsLock went up. Always ends the press.
    pub fn on_caps_up(&mut self) -> (action: Action)
        ensures
            (final(self)@, action) == caps_up_step(old(self)@),
            final(self)@ == State::Idle,
            action == (if old(self)@ == State::Held {
                Action::SwitchIme
            } else {
                Action::Nothing
            }),
    {
        match self.state {
            State::Held => {
                self.state = State::Idle;
                Action::SwitchIme
            },
            State::LongFired | State::Cancelled => {
                self.state = State::Idle;
                Action::Nothing
            },
            State::Idle => Action::Nothing,
        }
    }

    /// The long-press timer expired (at least the threshold after the press).
    pub fn on_timer(&mut self) -> (action: Action)
        ensures
            (final(self)@, action) == timer_step(old(self)@),
            old(self)@ == State::Held ==> final(self)@ == State::LongFired && action
                == Action::ToggleCapsLock,
            old(self)@ != State::Held ==> final(self)@ == old(self)@ && action == Action::Nothing,
    {
        match self.state {
            State::Held => {
                self.state = State::LongFired;
                Action::ToggleCapsLock
            },
            _ => Action::Nothing,
        }
    }

    /// Another key went down while CapsLock may be held: cancels the pending
    /// action. Returns true when a press was cancelled (the timer must stop).
    pub fn on_other_key(&mut self) -> (cancelled: bool)
        ensures
            (final(self)@, cancelled) == other_key_step(old(self)@),
            cancelled <==> old(self)@ == State::Held,
            old(self)@ == State::Held ==> final(self)@ == State::Cancelled,
            old(self)@ != State::Held ==> final(self)@ == old(self)@,
    {
        if self.state == State::Held {
            self.state = State::Cancelled;
            true
        } else {
            false
        }
    }
}

} // verus!
