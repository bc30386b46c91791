//! The countdown timer: its states, its events, and its transition function.
//!
//! Time enters as a clock reading, a number of nanoseconds. [`TimerView`]
//! says what each event does to the timer and what remains of the interval at
//! a given reading. [`Timer`] computes exactly that, either at a reading
//! handed in by the caller or at the one its own clock gives.

use crate::clock::Clock;
use crate::span::saturating_diff;
use crate::span::TimeSpan;
use vstd::prelude::*;

verus! {

/// Length of a work interval in nanoseconds: twenty-five minutes.
pub const WORK_NANOS: u64 = 1_500_000_000_000;

/// Length of a break interval in nanoseconds: five minutes.
pub const BREAK_NANOS: u64 = 300_000_000_000;

/// Where the timer stands.
#[derive(Clone, Copy, Debug, PartialEq, Eq, Structural)]
pub enum TimerState {
    /// No interval has been started, or the last one was reset.
    Idle,
    /// An interval is counting down.
    Running,
    /// An interval is held; time does not advance.
    Paused,
    /// The interval has run out.
    Completed,
}

/// What can be asked of the timer.
#[derive(Clone, Copy, Debug, PartialEq, Eq, Structural)]
pub enum TimerEvent {
    StartWork,
    StartBreak,
    Pause,
    Resume,
    Reset,
}

/// Whether `event` does anything in `state`. Every other pairing leaves the
/// timer as it is.
pub open spec fn accepts(state: TimerState, event: TimerEvent) -> bool {
    match (state, event) {
        (TimerState::Idle, TimerEvent::StartWork) => true,
        (TimerState::Idle, TimerEvent::StartBreak) => true,
        (TimerState::Running, TimerEvent::Pause) => true,
        (TimerState::Paused, TimerEvent::Resume) => true,
        (TimerState::Paused, TimerEvent::Reset) => true,
        (TimerState::Completed, TimerEvent::Reset) => true,
        _ => false,
    }
}

/// The timer as a mathematical value.
pub ghost struct TimerView {
    /// Where the timer stands.
    pub state: TimerState,
    /// The clock reading at which the present run began; held exactly while
    /// the timer runs.
    pub start: Option<nat>,
    /// The budget in nanoseconds. While the timer runs it is the budget of
    /// the whole run; otherwise it is what the next run will have.
    pub target: nat,
}

impl TimerView {
    /// The timer before its first event: idle, with an empty budget.
    pub open spec fn initial() -> TimerView {
        TimerView { state: TimerState::Idle, start: None, target: 0 }
    }

    /// A start reading is held exactly while the timer runs, and the budget
    /// never exceeds a work interval.
    pub open spec fn wf(self) -> bool {
        &&& self.state is Running <==> self.start is Some
        &&& self.target <= WORK_NANOS
    }

    /// Nanoseconds of the present run that have passed at the reading `now`.
    /// A reading before the start counts as no time at all.
    pub open spec fn elapsed(self, now: nat) -> nat {
        match self.start {
            Some(start) => saturating_diff(now, start),
            None => 0,
        }
    }

    /// Nanoseconds that remain at the reading `now`: budget less elapsed
    /// time while running, the held budget while paused, zero otherwise.
    pub open spec fn remaining(self, now: nat) -> nat {
        match self.state {
            TimerState::Running => saturating_diff(self.target, self.elapsed(now)),
            TimerState::Paused => self.target,
            TimerState::Completed => 0,
            TimerState::Idle => 0,
        }
    }

    /// The timer after it was asked for the remaining time at the reading
    /// `now`: a running timer with nothing left becomes completed, and
    /// nothing else changes.
    pub open spec fn observe(self, now: nat) -> TimerView {
        if self.state is Running && self.remaining(now) == 0 {
            TimerView { state: TimerState::Completed, start: None, target: self.target }
        } else {
            self
        }
    }

    /// The timer after `event` arrived at the reading `now`.
    pub open spec fn step(self, event: TimerEvent, now: nat) -> TimerView {
        match (self.state, event) {
            (TimerState::Idle, TimerEvent::StartWork) => TimerView {
                state: TimerState::Running,
                start: Some(now),
                target: WORK_NANOS as nat,
            },
            (TimerState::Idle, TimerEvent::StartBreak) => TimerView {
                state: TimerState::Running,
                start: Some(now),
                target: BREAK_NANOS as nat,
            },
            (TimerState::Running, TimerEvent::Pause) => TimerView {
                state: TimerState::Paused,
                start: None,
                target: saturating_diff(self.target, self.elapsed(now)),
            },
            (TimerState::Paused, TimerEvent::Resume) => TimerView {
                state: TimerState::Running,
                start: Some(now),
                target: self.target,
            },
            (TimerState::Paused, TimerEvent::Reset) => TimerView {
                state: TimerState::Idle,
                start: None,
                target: WORK_NANOS as nat,
            },
            (TimerState::Completed, TimerEvent::Reset) => TimerView {
                state: TimerState::Idle,
                start: None,
                target: WORK_NANOS as nat,
            },
            _ => self,
        }
    }
}

/// Whether `event` does anything in `state`.
pub fn event_accepted(state: TimerState, event: TimerEvent) -> (accepted: bool)
    ensures
        accepted == accepts(state, event),
{
    match (state, event) {
        (TimerState::Idle, TimerEvent::StartWork) => true,
        (TimerState::Idle, TimerEvent::StartBreak) => true,
        (TimerState::Running, TimerEvent::Pause) => true,
        (TimerState::Paused, TimerEvent::Resume) => true,
        (TimerState::Paused, TimerEvent::Reset) => true,
        (TimerState::Completed, TimerEvent::Reset) => true,
        _ => false,
    }
}

/// A countdown timer with its own clock.
///
/// Its view is a [`TimerView`], which is always well formed.
#[derive(Debug)]
pub struct Timer {
    current_state: TimerState,
    start_time: Option<u128>,
    target_duration: TimeSpan,
    clock: Clock,
}

impl View for Timer {
    type V = TimerView;

    closed spec fn view(&self) -> TimerView {
        TimerView {
            state: self.current_state,
            start: match self.start_time {
                Some(start) => Some(start as nat),
                None => None,
            },
            target: self.target_duration@,
        }
    }
}

impl Timer {
    #[verifier::type_invariant]
    closed spec fn inv(&self) -> bool {
        self@.wf()
    }

    /// The latest reading of the timer's own clock.
    pub closed spec fn clock_reading(&self) -> nat {
        self.clock.reading()
    }

    /// An idle timer with an empty budget, and a clock started now.
    pub fn new() -> (timer: Timer)
        ensures
            timer@ == TimerView::initial(),
            timer.clock_reading() == 0,
    {
        Timer {
            current_state: TimerState::Idle,
            start_time: None,
            target_duration: TimeSpan::zero(),
            clock: Clock::start(),
        }
    }

    /// Where the timer stands. Reading the state changes nothing.
    pub fn state(&self) -> (state: TimerState)
        ensures
            state == self@.state,
            self@.wf(),
    {
        proof {
            use_type_invariant(self);
        }
        self.current_state
    }

    /// Takes `input` at the reading of the timer's own clock.
    ///
    /// An event that the present state does not accept changes nothing and
    /// does not read the clock.
    pub fn handle_input(&mut self, input: TimerEvent)
        ensures
            old(self).clock_reading() <= final(self).clock_reading(),
            final(self)@ == old(self)@.step(input, final(self).clock_reading()),
            !accepts(old(self)@.state, input) ==> final(self).clock_reading() == old(
                self,
            ).clock_reading(),
            final(self)@.wf(),
    {
        if event_accepted(self.current_state, input) {
            let now: u128 = self.read_clock();
            self.handle_input_at(input, now);
        } else {
            proof {
                use_type_invariant(&*self);
            }
        }
    }

    /// Takes `input` at the clock reading `now`; the timer's own clock is
    /// left alone.
    pub fn handle_input_at(&mut self, input: TimerEvent, now: u128)
        ensures
            final(self)@ == old(self)@.step(input, now as nat),
            final(self).clock_reading() == old(self).clock_reading(),
            final(self)@.wf(),
    {
        proof {
            use_type_invariant(&*self);
        }
        match (self.current_state, input) {
            (TimerState::Idle, TimerEvent::StartWork) => {
                self.start_work(now);
            },
            (TimerState::Idle, TimerEvent::StartBreak) => {
                self.start_break(now);
            },
            (TimerState::Running, TimerEvent::Pause) => {
                self.pause(now);
            },
            (TimerState::Paused, TimerEvent::Resume) => {
                self.handle_resume(now);
            },
            (TimerState::Paused, TimerEvent::Reset) => {
                self.reset();
            },
            (TimerState::Completed, TimerEvent::Reset) => {
                self.reset();
            },
            (_, _) => {},
        }
    }

    /// The time that remains at the reading of the timer's own clock. A
    /// running timer that has nothing left becomes completed.
    ///
    /// The clock is read only while the timer runs, and its readings never
    /// go back: no call reports more than a call at the reading before it
    /// would have.
    pub fn get_remaining_time(&mut self) -> (remaining: TimeSpan)
        ensures
            old(self).clock_reading() <= final(self).clock_reading(),
            remaining@ == old(self)@.remaining(final(self).clock_reading()),
            remaining@ <= old(self)@.remaining(old(self).clock_reading()),
            final(self)@ == old(self)@.observe(final(self).clock_reading()),
            !(old(self)@.state is Running) ==> final(self).clock_reading() == old(
                self,
            ).clock_reading(),
            remaining@ <= WORK_NANOS,
            final(self)@.wf(),
    {
        match self.current_state {
            TimerState::Running => {
                let now: u128 = self.read_clock();
                self.remaining_time_at(now)
            },
            _ => {
                let latest: u128 = self.clock.latest();
                self.remaining_time_at(latest)
            },
        }
    }

    /// The time that remains at the clock reading `now`. A running timer
    /// that has nothing left becomes completed. The timer's own clock is
    /// left alone.
    pub fn remaining_time_at(&mut self, now: u128) -> (remaining: TimeSpan)
        ensures
            remaining@ == old(self)@.remaining(now as nat),
            final(self)@ == old(self)@.observe(now as nat),
            final(self).clock_reading() == old(self).clock_reading(),
            remaining@ <= WORK_NANOS,
            final(self)@.wf(),
    {
        proof {
            use_type_invariant(&*self);
        }
        match self.current_state {
            TimerState::Running => {
                let elapsed: u128 = self.elapsed_at(now);
                let remaining: TimeSpan = self.target_duration.saturating_sub_nanos(elapsed);
                if remaining.is_zero() {
                    *self = Timer {
                        current_state: TimerState::Completed,
                        start_time: None,
                        target_duration: self.target_duration,
                        clock: self.clock,
                    };
                }
                remaining
            },
            TimerState::Paused => self.target_duration,
            TimerState::Completed => TimeSpan::zero(),
            TimerState::Idle => TimeSpan::zero(),
        }
    }

    /// Reads the timer's own clock. The timer itself stays as it is.
    fn read_clock(&mut self) -> (now: u128)
        ensures
            now == final(self).clock_reading(),
            old(self).clock_reading() <= final(self).clock_reading(),
            final(self)@ == old(self)@,
    {
        proof {
            use_type_invariant(&*self);
        }
        let mut clock: Clock = self.clock;
        let now: u128 = clock.now();
        self.clock = clock;
        now
    }

    /// Nanoseconds of the present run that have passed at the reading `now`.
    fn elapsed_at(&self, now: u128) -> (elapsed: u128)
        ensures
            elapsed == self@.elapsed(now as nat),
    {
        match self.start_time {
            Some(start) => if now >= start {
                now - start
            } else {
                0
            },
            None => 0,
        }
    }

    fn reset(&mut self)
        ensures
            final(self)@ == (TimerView {
                state: TimerState::Idle,
                start: None,
                target: WORK_NANOS as nat,
            }),
            final(self).clock_reading() == old(self).clock_reading(),
    {
        *self = Timer {
            current_state: TimerState::Idle,
            start_time: None,
            target_duration: TimeSpan::from_nanos(WORK_NANOS),
            clock: self.clock,
        };
    }

    fn start_work(&mut self, now: u128)
        ensures
            final(self)@ == (TimerView {
                state: TimerState::Running,
                start: Some(now as nat),
                target: WORK_NANOS as nat,
            }),
            final(self).clock_reading() == old(self).clock_reading(),
    {
        *self = Timer {
            current_state: TimerState::Running,
            start_time: Some(now),
            target_duration: TimeSpan::from_nanos(WORK_NANOS),
            clock: self.clock,
        };
    }

    fn start_break(&mut self, now: u128)
        ensures
            final(self)@ == (TimerView {
                state: TimerState::Running,
                start: Some(now as nat),
                target: BREAK_NANOS as nat,
            }),
            final(self).clock_reading() == old(self).clock_reading(),
    {
        *self = Timer {
            current_state: TimerState::Running,
            start_time: Some(now),
            target_duration: TimeSpan::from_nanos(BREAK_NANOS),
            clock: self.clock,
        };
    }

    fn pause(&mut self, now: u128)
        ensures
            final(self)@ == (TimerView {
                state: TimerState::Paused,
                start: None,
                target: saturating_diff(old(self)@.target, old(self)@.elapsed(now as nat)),
            }),
            final(self).clock_reading() == old(self).clock_reading(),
    {
        proof {
            use_type_invariant(&*self);
        }
        let elapsed: u128 = self.elapsed_at(now);
        *self = Timer {
            current_state: TimerState::Paused,
            start_time: None,
            target_duration: self.target_duration.saturating_sub_nanos(elapsed),
            clock: self.clock,
        };
    }

    fn handle_resume(&mut self, now: u128)
        ensures
            final(self)@ == (TimerView {
                state: TimerState::Running,
                start: Some(now as nat),
                target: old(self)@.target,
            }),
            final(self).clock_reading() == old(self).clock_reading(),
    {
        proof {
            use_type_invariant(&*self);
        }
        *self = Timer {
            current_state: TimerState::Running,
            start_time: Some(now),
            target_duration: self.target_duration,
            clock: self.clock,
        };
    }
}

impl Default for Timer {
    /// The same timer as [`Timer::new`] gives.
    fn default() -> (timer: Timer)
        ensures
            timer@ == TimerView::initial(),
            timer.clock_reading() == 0,
    {
        Timer::new()
    }
}

} // verus!
