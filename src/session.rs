use vstd::prelude::*;

use crate::clock::{ClockState, TimerClock, NANOS_PER_SEC};
use crate::input::{is_ascii_digit, is_digit, parse_number, parsed_number};

verus! {

/// How far `j` and `k` move the target: ten seconds.
pub const ADJUST_STEP: u128 = 10_000_000_000;

/// The Pomodoro preset: twenty-five minutes.
pub const POMODORO: u128 = 1_500_000_000_000;

/// One minute, the unit of a duration typed in by hand.
pub const MINUTE: u128 = 60_000_000_000;

/// How long each hint line stays on screen before the next one.
pub const TAGLINE_INTERVAL: u128 = 5_000_000_000;

/// How many hint lines take turns.
pub const TAGLINE_COUNT: usize = 4;

/// The screen the session shows; each has its own key map.
#[derive(PartialEq, Eq, Structural, Clone, Copy, Debug)]
pub enum Mode {
    Normal,
    Help,
    ManualInput,
}

/// A key as the session sees it; every key it does not use is `Other`.
#[derive(PartialEq, Eq, Structural, Clone, Copy, Debug)]
pub enum Key {
    Char(char),
    Enter,
    Backspace,
    Esc,
    Other,
}

/// The abstract state of a session, durations and instants in nanoseconds.
pub struct SessionState {
    pub clock: ClockState,
    pub mode: Mode,
    pub input: Seq<char>,
    pub notified: bool,
    pub tagline: nat,
    pub last_tagline_change: nat,
}

impl SessionState {
    /// The state after a restart-class action: the clock starts over and the
    /// completion latch is cleared.
    pub open spec fn restarted(self, new_target: Option<nat>, now: nat) -> SessionState {
        SessionState { clock: self.clock.restarted(new_target, now), notified: false, ..self }
    }

    /// Whether `key` ends the session.
    pub open spec fn quits(self, key: Key) -> bool {
        self.mode == Mode::Normal && key == Key::Char('q')
    }

    /// Whether `key` starts a new countdown and so opens a new completion episode.
    pub open spec fn restarts(self, key: Key) -> bool {
        ||| self.mode == Mode::Normal && (key == Key::Char('r') || key == Key::Char('p'))
        ||| self.mode == Mode::ManualInput && key == Key::Enter && parsed_number(self.input) is Some
    }

    pub open spec fn after_normal_key(self, key: Key, now: nat) -> SessionState {
        match key {
            Key::Char(c) => if c == 'r' {
                self.restarted(None, now)
            } else if c == ' ' {
                let clock = if self.clock.paused {
                    self.clock.resumed_at(now as int)
                } else {
                    self.clock.paused_at(now as int)
                };
                SessionState { clock, ..self }
            } else if c == 'h' {
                SessionState { mode: Mode::Help, ..self }
            } else if c == 'j' {
                SessionState { clock: self.clock.adjusted(ADJUST_STEP as int), ..self }
            } else if c == 'k' {
                if self.clock.target > ADJUST_STEP {
                    SessionState { clock: self.clock.adjusted(-(ADJUST_STEP as int)), ..self }
                } else {
                    self
                }
            } else if c == 'p' {
                self.restarted(Some(POMODORO as nat), now)
            } else if c == 'm' {
                SessionState { mode: Mode::ManualInput, input: Seq::empty(), ..self }
            } else {
                self
            },
            _ => self,
        }
    }

    pub open spec fn after_help_key(self, key: Key) -> SessionState {
        if key == Key::Char('q') || key == Key::Char('h') || key == Key::Esc {
            SessionState { mode: Mode::Normal, ..self }
        } else {
            self
        }
    }

    pub open spec fn after_input_key(self, key: Key, now: nat) -> SessionState {
        match key {
            Key::Char(c) => if is_digit(c) {
                SessionState { input: self.input.push(c), ..self }
            } else if c == 'q' {
                SessionState { mode: Mode::Normal, input: Seq::empty(), ..self }
            } else {
                self
            },
            Key::Backspace => if self.input.len() > 0 {
                SessionState { input: self.input.drop_last(), ..self }
            } else {
                self
            },
            Key::Enter => {
                let back = SessionState { mode: Mode::Normal, input: Seq::empty(), ..self };
                match parsed_number(self.input) {
                    Some(m) => back.restarted(Some((m * MINUTE) as nat), now),
                    None => back,
                }
            },
            Key::Esc => SessionState { mode: Mode::Normal, input: Seq::empty(), ..self },
            Key::Other => self,
        }
    }

    /// The state after `key` is pressed at instant `now`; keys that a mode does not use
    /// leave the state as it was.
    pub open spec fn after_key(self, key: Key, now: nat) -> SessionState {
        match self.mode {
            Mode::Normal => self.after_normal_key(key, now),
            Mode::Help => self.after_help_key(key),
            Mode::ManualInput => self.after_input_key(key, now),
        }
    }

    /// Whether the completion check at `now` fires the notifier.
    pub open spec fn fires_at(self, now: int) -> bool {
        self.clock.remaining_at(now) == 0 && !self.notified
    }

    pub open spec fn after_check(self, now: int) -> SessionState {
        SessionState { notified: self.notified || self.fires_at(now), ..self }
    }

    pub open spec fn after_tagline_tick(self, now: nat) -> SessionState {
        if now >= self.last_tagline_change + TAGLINE_INTERVAL {
            SessionState {
                tagline: (self.tagline + 1) % (TAGLINE_COUNT as nat),
                last_tagline_change: now,
                ..self
            }
        } else {
            self
        }
    }
}

/// One interactive countdown: the clock, the screen shown, the digits typed so far,
/// and the latch that keeps the completion notice to one per countdown.
pub struct TimerSession {
    clock: TimerClock,
    mode: Mode,
    input: Vec<char>,
    notified: bool,
    tagline: usize,
    last_tagline_change: u128,
}

impl View for TimerSession {
    type V = SessionState;

    closed spec fn view(&self) -> SessionState {
        SessionState {
            clock: self.clock@,
            mode: self.mode,
            input: self.input@,
            notified: self.notified,
            tagline: self.tagline as nat,
            last_tagline_change: self.last_tagline_change as nat,
        }
    }
}

impl TimerSession {
    /// A session in normal mode whose clock counts down `target` nanoseconds from `now`.
    pub fn new(target: u128, now: u128) -> (r: TimerSession)
        ensures
            r@.clock == (ClockState { target: target as nat, reference: now as nat, paused: false, paused_elapsed: 0 }),
            r@.mode == Mode::Normal,
            r@.input == Seq::<char>::empty(),
            !r@.notified,
            r@.tagline == 0,
            r@.last_tagline_change == now,
    {
        TimerSession {
            clock: TimerClock::new(target, now),
            mode: Mode::Normal,
            input: Vec::new(),
            notified: false,
            tagline: 0,
            last_tagline_change: now,
        }
    }

    /// A session for a countdown of `seconds` whole seconds.
    pub fn from_seconds(seconds: u64, now: u128) -> (r: TimerSession)
        ensures
            r@.clock == (ClockState {
                target: (seconds * NANOS_PER_SEC) as nat,
                reference: now as nat,
                paused: false,
                paused_elapsed: 0,
            }),
            r@.mode == Mode::Normal,
            r@.input == Seq::<char>::empty(),
            !r@.notified,
            r@.tagline == 0,
            r@.last_tagline_change == now,
    {
        TimerSession::new(seconds as u128 * NANOS_PER_SEC, now)
    }

    pub fn clock(&self) -> (r: &TimerClock)
        ensures
            r@ == self@.clock,
    {
        &self.clock
    }

    pub fn mode(&self) -> (r: Mode)
        ensures
            r == self@.mode,
    {
        self.mode
    }

    pub fn input(&self) -> (r: &Vec<char>)
        ensures
            r@ == self@.input,
    {
        &self.input
    }

    pub fn already_notified(&self) -> (r: bool)
        ensures
            r == self@.notified,
    {
        self.notified
    }

    /// Which hint line to show, counted from zero.
    pub fn tagline_index(&self) -> (r: usize)
        ensures
            r == self@.tagline,
    {
        self.tagline
    }

    /// Starts the countdown over at `now`, with `new_target` if one is given, and clears the
    /// completion latch.
    pub fn restart(&mut self, new_target: Option<u128>, now: u128)
        ensures
            final(self)@ == old(self)@.restarted(
                match new_target {
                    Some(t) => Some(t as nat),
                    None => None,
                },
                now as nat,
            ),
            final(self)@.clock.elapsed_at(now as int) == 0,
            !final(self)@.clock.paused,
            !final(self)@.notified,
    {
        self.clock.restart(new_target, now);
        self.notified = false;
    }

    fn leave_input(&mut self)
        ensures
            final(self)@ == (SessionState { mode: Mode::Normal, input: Seq::empty(), ..old(self)@ }),
    {
        self.mode = Mode::Normal;
        self.input.clear();
        assert(self.input@ =~= Seq::<char>::empty());
    }

    fn handle_normal_key(&mut self, key: Key, now: u128)
        requires
            old(self)@.mode == Mode::Normal,
        ensures
            final(self)@ == old(self)@.after_normal_key(key, now as nat),
    {
        if let Key::Char(c) = key {
            if c == 'r' {
                self.restart(None, now);
            } else if c == ' ' {
                if self.clock.is_paused() {
                    self.clock.resume(now);
                } else {
                    self.clock.pause(now);
                }
            } else if c == 'h' {
                self.mode = Mode::Help;
            } else if c == 'j' {
                self.clock.adjust_target(ADJUST_STEP as i128);
            } else if c == 'k' {
                if self.clock.target_duration() > ADJUST_STEP {
                    self.clock.adjust_target(-(ADJUST_STEP as i128));
                }
            } else if c == 'p' {
                self.restart(Some(POMODORO), now);
            } else if c == 'm' {
                self.mode = Mode::ManualInput;
                self.input.clear();
                assert(self.input@ =~= Seq::<char>::empty());
            }
        }
    }

    fn handle_input_key(&mut self, key: Key, now: u128)
        requires
            old(self)@.mode == Mode::ManualInput,
        ensures
            final(self)@ == old(self)@.after_input_key(key, now as nat),
    {
        match key {
            Key::Char(c) => {
                if is_ascii_digit(c) {
                    self.input.push(c);
                } else if c == 'q' {
                    self.leave_input();
                }
            },
            Key::Backspace => {
                if self.input.len() > 0 {
                    self.input.pop();
                }
            },
            Key::Enter => {
                let parsed = parse_number(&self.input);
                self.leave_input();
                if let Some(m) = parsed {
                    self.restart(Some(m as u128 * MINUTE), now);
                }
            },
            Key::Esc => {
                self.leave_input();
            },
            Key::Other => {},
        }
    }

    /// Applies `key`, pressed at instant `now`, as the current mode's key map says.
    /// Returns whether the key ends the session; such a key changes nothing.
    pub fn handle_key(&mut self, key: Key, now: u128) -> (quit: bool)
        ensures
            quit == old(self)@.quits(key),
            quit ==> final(self)@ == old(self)@,
            !quit ==> final(self)@ == old(self)@.after_key(key, now as nat),
    {
        match self.mode {
            Mode::Normal => {
                if key == Key::Char('q') {
                    return true;
                }
                self.handle_normal_key(key, now);
            },
            Mode::Help => {
                if key == Key::Char('q') || key == Key::Char('h') || key == Key::Esc {
                    self.mode = Mode::Normal;
                }
            },
            Mode::ManualInput => {
                self.handle_input_key(key, now);
            },
        }
        false
    }

    /// The completion check of a frame, made at instant `now` after the frame's key was
    /// applied. Returns whether the notifier is to fire: the countdown has reached zero
    /// and has not been announced since the last restart. Firing sets the latch.
    pub fn check_completion(&mut self, now: u128) -> (fire: bool)
        ensures
            fire == old(self)@.fires_at(now as int),
            final(self)@ == old(self)@.after_check(now as int),
    {
        let fire = self.clock.is_done(now) && !self.notified;
        if fire {
            self.notified = true;
        }
        fire
    }

    /// Moves on to the next hint line once its interval has passed since the last change.
    pub fn tick_tagline(&mut self, now: u128)
        ensures
            final(self)@ == old(self)@.after_tagline_tick(now as nat),
    {
        if now >= self.last_tagline_change && now - self.last_tagline_change >= TAGLINE_INTERVAL {
            self.tagline = (self.tagline % TAGLINE_COUNT + 1) % TAGLINE_COUNT;
            self.last_tagline_change = now;
        }
    }
}


/// One thing that happens to a session in a frame: a key pressed at an instant, or the
/// completion check made at an instant.
pub enum SessionEvent {
    Press(Key, nat),
    Check(nat),
}

/// The session after `events`, in order.
pub open spec fn run_events(s: SessionState, events: Seq<SessionEvent>) -> SessionState
    decreases events.len(),
{
    if events.len() == 0 {
        s
    } else {
        let next = match events[0] {
            SessionEvent::Press(k, t) => if s.quits(k) {
                s
            } else {
                s.after_key(k, t)
            },
            SessionEvent::Check(t) => s.after_check(t as int),
        };
        run_events(next, events.drop_first())
    }
}

/// How many of the completion checks in `events` fire the notifier.
pub open spec fn fire_count(s: SessionState, events: Seq<SessionEvent>) -> nat
    decreases events.len(),
{
    if events.len() == 0 {
        0
    } else {
        match events[0] {
            SessionEvent::Press(k, t) => fire_count(if s.quits(k) {
                s
            } else {
                s.after_key(k, t)
            }, events.drop_first()),
            SessionEvent::Check(t) => (if s.fires_at(t as int) {
                1nat
            } else {
                0nat
            }) + fire_count(s.after_check(t as int), events.drop_first()),
        }
    }
}

/// No key in `events` is a restart-class action at the moment it is pressed.
pub open spec fn free_of_restarts(s: SessionState, events: Seq<SessionEvent>) -> bool
    decreases events.len(),
{
    if events.len() == 0 {
        true
    } else {
        match events[0] {
            SessionEvent::Press(k, t) => !s.restarts(k) && free_of_restarts(if s.quits(k) {
                s
            } else {
                s.after_key(k, t)
            }, events.drop_first()),
            SessionEvent::Check(t) => free_of_restarts(s.after_check(t as int), events.drop_first()),
        }
    }
}

/// Only a restart-class key clears the completion latch; no key sets it.
pub proof fn lemma_key_keeps_latch(s: SessionState, key: Key, now: nat)
    requires
        !s.restarts(key),
    ensures
        s.after_key(key, now).notified == s.notified,
{
}

/// Between two restart-class actions the notifier fires at most once, however many
/// completion checks find the countdown at zero; once it has fired it stays silent.
pub proof fn lemma_notifies_at_most_once(s: SessionState, events: Seq<SessionEvent>)
    requires
        free_of_restarts(s, events),
    ensures
        fire_count(s, events) <= 1,
        s.notified ==> fire_count(s, events) == 0,
    decreases events.len(),
{
    if events.len() > 0 {
        match events[0] {
            SessionEvent::Press(k, t) => {
                if !s.quits(k) {
                    lemma_key_keeps_latch(s, k, t);
                }
                let next = if s.quits(k) {
                    s
                } else {
                    s.after_key(k, t)
                };
                lemma_notifies_at_most_once(next, events.drop_first());
            },
            SessionEvent::Check(t) => {
                lemma_notifies_at_most_once(s.after_check(t as int), events.drop_first());
            },
        }
    }
}

} // verus!
