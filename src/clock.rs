use vstd::prelude::*;

verus! {

/// Nanoseconds in one second; every duration and instant here is a count of nanoseconds.
pub const NANOS_PER_SEC: u128 = 1_000_000_000;

/// The abstract state of a countdown clock, every quantity in nanoseconds.
pub struct ClockState {
    pub target: nat,
    pub reference: nat,
    pub paused: bool,
    pub paused_elapsed: nat,
}

impl ClockState {
    /// Time counted so far, as seen at instant `now`.
    pub open spec fn elapsed_at(self, now: int) -> nat {
        if self.paused {
            self.paused_elapsed
        } else if now >= self.reference {
            (now - self.reference) as nat
        } else {
            0
        }
    }

    /// Time left before the target is reached, floored at zero.
    pub open spec fn remaining_at(self, now: int) -> nat {
        if self.target >= self.elapsed_at(now) {
            (self.target - self.elapsed_at(now)) as nat
        } else {
            0
        }
    }

    /// The instants up to `now` were consistent with this state: a running clock was
    /// anchored no later than `now`, a paused one had counted no more than `now`.
    pub open spec fn consistent_at(self, now: int) -> bool {
        &&& self.paused ==> self.paused_elapsed <= now
        &&& !self.paused ==> self.reference <= now
    }

    pub open spec fn paused_at(self, now: int) -> ClockState {
        if self.paused {
            self
        } else {
            ClockState { paused: true, paused_elapsed: self.elapsed_at(now), ..self }
        }
    }

    /// Re-anchors the reference instant so that counting resumes where it stopped.
    pub open spec fn resumed_at(self, now: int) -> ClockState {
        if !self.paused {
            self
        } else {
            let reference = if now >= self.paused_elapsed {
                (now - self.paused_elapsed) as nat
            } else {
                0
            };
            ClockState { paused: false, reference, ..self }
        }
    }

    /// The target moved by `delta`; a move that would leave the range of `u128` is refused.
    pub open spec fn adjusted(self, delta: int) -> ClockState {
        let t = self.target + delta;
        if 0 <= t <= u128::MAX {
            ClockState { target: t as nat, ..self }
        } else {
            self
        }
    }

    pub open spec fn restarted(self, new_target: Option<nat>, now: nat) -> ClockState {
        ClockState {
            target: match new_target {
                Some(t) => t,
                None => self.target,
            },
            reference: now,
            paused: false,
            paused_elapsed: 0,
        }
    }
}

/// A countdown clock that tracks elapsed time against a mutable target, with pause and
/// resume. The caller supplies the current instant to each operation.
pub struct TimerClock {
    target: u128,
    reference: u128,
    paused: bool,
    paused_elapsed: u128,
}

impl View for TimerClock {
    type V = ClockState;

    closed spec fn view(&self) -> ClockState {
        ClockState {
            target: self.target as nat,
            reference: self.reference as nat,
            paused: self.paused,
            paused_elapsed: self.paused_elapsed as nat,
        }
    }
}

impl TimerClock {
    /// A running clock for `target` nanoseconds, started at `now`.
    pub fn new(target: u128, now: u128) -> (r: TimerClock)
        ensures
            r@ == (ClockState { target: target as nat, reference: now as nat, paused: false, paused_elapsed: 0 }),
    {
        TimerClock { target, reference: now, paused: false, paused_elapsed: 0 }
    }

    pub fn target_duration(&self) -> (r: u128)
        ensures
            r == self@.target,
    {
        self.target
    }

    pub fn is_paused(&self) -> (r: bool)
        ensures
            r == self@.paused,
    {
        self.paused
    }

    pub fn elapsed(&self, now: u128) -> (r: u128)
        ensures
            r == self@.elapsed_at(now as int),
    {
        if self.paused {
            self.paused_elapsed
        } else if now >= self.reference {
            now - self.reference
        } else {
            0
        }
    }

    pub fn remaining(&self, now: u128) -> (r: u128)
        ensures
            r == self@.remaining_at(now as int),
            r <= self@.target,
    {
        let e = self.elapsed(now);
        if self.target >= e {
            self.target - e
        } else {
            0
        }
    }

    pub fn is_done(&self, now: u128) -> (r: bool)
        ensures
            r == (self@.remaining_at(now as int) == 0),
    {
        self.remaining(now) == 0
    }

    /// Freezes the elapsed time; does nothing on a paused clock.
    pub fn pause(&mut self, now: u128)
        ensures
            final(self)@ == old(self)@.paused_at(now as int),
            final(self)@.paused,
            final(self)@.elapsed_at(now as int) == old(self)@.elapsed_at(now as int),
    {
        if !self.paused {
            self.paused_elapsed = self.elapsed(now);
            self.paused = true;
        }
    }

    /// Continues counting from the frozen elapsed time; does nothing on a running clock.
    pub fn resume(&mut self, now: u128)
        ensures
            final(self)@ == old(self)@.resumed_at(now as int),
            !final(self)@.paused,
            old(self)@.consistent_at(now as int) ==> final(self)@.elapsed_at(now as int)
                == old(self)@.elapsed_at(now as int),
    {
        if self.paused {
            self.reference = if now >= self.paused_elapsed {
                now - self.paused_elapsed
            } else {
                0
            };
            self.paused = false;
        }
    }

    /// Moves the target by `delta` nanoseconds. A change that would make the target
    /// negative, or too large for `u128`, is refused and leaves the target as it was.
    /// Elapsed time and the pause state are untouched.
    pub fn adjust_target(&mut self, delta: i128)
        ensures
            final(self)@ == old(self)@.adjusted(delta as int),
            0 <= old(self)@.target + delta <= u128::MAX ==> final(self)@.target == old(self)@.target + delta,
            !(0 <= old(self)@.target + delta <= u128::MAX) ==> final(self)@.target == old(self)@.target,
            final(self)@.paused == old(self)@.paused,
            forall|t: int| final(self)@.elapsed_at(t) == old(self)@.elapsed_at(t),
    {
        if delta >= 0 {
            let inc = delta as u128;
            if self.target <= u128::MAX - inc {
                self.target = self.target + inc;
            }
        } else {
            let dec: u128 = ((0i128 - (delta + 1)) as u128) + 1;
            if self.target >= dec {
                self.target = self.target - dec;
            }
        }
    }

    /// Starts counting again from zero at `now`, running, with the new target if one is given.
    pub fn restart(&mut self, new_target: Option<u128>, now: u128)
        ensures
            final(self)@ == old(self)@.restarted(
                match new_target {
                    Some(t) => Some(t as nat),
                    None => None,
                },
                now as nat,
            ),
            final(self)@.elapsed_at(now as int) == 0,
            !final(self)@.paused,
    {
        if let Some(t) = new_target {
            self.target = t;
        }
        self.reference = now;
        self.paused = false;
        self.paused_elapsed = 0;
    }
}


/// Whole minutes and leftover whole seconds of a duration, as a `MM:SS` display shows them.
pub fn minutes_seconds(d: u128) -> (r: (u128, u128))
    ensures
        r.0 == d / NANOS_PER_SEC / 60,
        r.1 == d / NANOS_PER_SEC % 60,
        r.1 < 60,
{
    let secs = d / NANOS_PER_SEC;
    (secs / 60, secs % 60)
}

/// A pause or a resume, as a step in a history of a clock.
pub enum PauseToggle {
    Pause,
    Resume,
}

/// The clock after each toggle of `events` is applied at its instant, in order.
pub open spec fn apply_toggles(c: ClockState, events: Seq<(PauseToggle, nat)>) -> ClockState
    decreases events.len(),
{
    if events.len() == 0 {
        c
    } else {
        let (e, t) = events[0];
        let next = match e {
            PauseToggle::Pause => c.paused_at(t as int),
            PauseToggle::Resume => c.resumed_at(t as int),
        };
        apply_toggles(next, events.drop_first())
    }
}

/// The real time between `from` and `end` during which the clock was running, given that
/// it was paused at `from` exactly when `paused` holds and then saw `events`.
pub open spec fn running_time(paused: bool, from: int, events: Seq<(PauseToggle, nat)>, end: int) -> int
    decreases events.len(),
{
    if events.len() == 0 {
        if paused {
            0
        } else {
            end - from
        }
    } else {
        let (e, t) = events[0];
        let here = if paused {
            0
        } else {
            t - from
        };
        let next_paused = match e {
            PauseToggle::Pause => true,
            PauseToggle::Resume => false,
        };
        here + running_time(next_paused, t as int, events.drop_first(), end)
    }
}

/// The events happen in order, none before `start` and none after `end`.
pub open spec fn chronological(start: int, events: Seq<(PauseToggle, nat)>, end: int) -> bool {
    &&& forall|i: int| 0 <= i < events.len() ==> start <= #[trigger] events[i].1 <= end
    &&& forall|i: int, j: int| 0 <= i < j < events.len() ==> #[trigger] events[i].1 <= #[trigger] events[j].1
    &&& start <= end
}

/// Pausing and resuming are lossless: across any history of pauses and resumes, the
/// elapsed time grows by exactly the real time during which the clock was running.
/// Pauses never leak running time and resumes never count any time twice.
pub proof fn lemma_pause_resume_lossless(c: ClockState, start: int, events: Seq<(PauseToggle, nat)>, end: int)
    requires
        c.consistent_at(start),
        chronological(start, events, end),
    ensures
        apply_toggles(c, events).elapsed_at(end) == c.elapsed_at(start) + running_time(c.paused, start, events, end),
    decreases events.len(),
{
    if events.len() > 0 {
        let (e, t) = events[0];
        let next = match e {
            PauseToggle::Pause => c.paused_at(t as int),
            PauseToggle::Resume => c.resumed_at(t as int),
        };
        let rest = events.drop_first();
        assert(start <= events[0].1);
        assert forall|i: int| 0 <= i < rest.len() implies t <= #[trigger] rest[i].1 <= end by {
            assert(rest[i] == events[i + 1]);
        }
        assert forall|i: int, j: int| 0 <= i < j < rest.len() implies #[trigger] rest[i].1 <= #[trigger] rest[j].1 by {
            assert(rest[i] == events[i + 1]);
            assert(rest[j] == events[j + 1]);
        }
        assert(t <= end) by {
            assert(events[0].1 <= end);
        }
        assert(next.consistent_at(t as int));
        assert(next.elapsed_at(t as int) == c.elapsed_at(start) + (if c.paused { 0 } else { t - start }));
        lemma_pause_resume_lossless(next, t as int, rest, end);
    }
}

} // verus!
