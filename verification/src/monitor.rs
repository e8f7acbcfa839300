//! The reconnect state machine of a supervised source.
//!
//! A driver owns the source and does the waiting; the [`Monitor`] decides. The
//! driver makes the call that the monitor's [`Phase`] asks for, reports how it
//! went as an [`Outcome`], and carries out the [`Effect`] that
//! [`Monitor::step`] answers with before it makes the next call.

use crate::repeat_last::{repeat_last, Cursor, LastRepeatIter};
use crate::status::{outage_severity, Severity, Status};
use std::time::Duration;
use vstd::prelude::*;

verus! {

/// Length, in milliseconds, of the pause after a failure in mid-stream.
pub const GRACE_MILLIS: u64 = 100;

/// The `Duration` that `std::time::Duration::from_millis` makes of a number
/// of milliseconds.
pub uninterp spec fn duration_of_millis(millis: u64) -> Duration;

/// `std::time::Duration::from_millis` is taken to be a function of its
/// argument: equal numbers of milliseconds give equal durations. Nothing is
/// claimed about what a `Duration` holds.
pub assume_specification[ Duration::from_millis ](millis: u64) -> (duration: Duration)
    ensures
        duration == duration_of_millis(millis),
;

/// The pause after a failure in mid-stream. It does not depend on the backoff
/// schedule.
pub open spec fn grace_delay() -> Duration {
    duration_of_millis(GRACE_MILLIS)
}

/// What the monitor waits for.
#[derive(Debug, Clone, Copy, PartialEq, Eq, Structural)]
pub enum Phase {
    /// No source instance is held: the driver is to establish one.
    Connecting,
    /// A source instance is held: the driver is to poll it.
    Streaming,
    /// Supervision was cancelled: the driver is to make no further call.
    Stopped,
}

/// What the driver reports to the monitor.
#[derive(Debug, PartialEq, Eq)]
pub enum Outcome<E> {
    /// An attempt to establish the source gave an instance.
    Established,
    /// An attempt to establish the source failed.
    EstablishFailed,
    /// The instance produced an event.
    Polled(E),
    /// The instance failed and is no longer usable.
    PollFailed,
    /// The cancellation signal fired.
    Cancelled,
}

/// What the driver is to do before its next call.
#[derive(Debug, PartialEq, Eq)]
pub enum Effect<E> {
    /// Nothing: the new instance is ready to be polled.
    Connected,
    /// Publish the event to the subscribers; whether anyone receives it does
    /// not matter.
    Publish(E),
    /// Report the failed attempt with the given severity, then wait `delay`.
    Backoff { severity: Severity, delay: Duration },
    /// Report the failure as a warning, discard the instance, then wait
    /// `delay`.
    Grace { delay: Duration },
    /// Give up whatever is in flight and return successfully.
    Stop,
}

/// Why a monitor could not be made.
#[derive(Debug, Clone, Copy, PartialEq, Eq, Structural)]
pub enum ConfigError {
    /// The backoff schedule holds no delay.
    EmptyBackoff,
}

/// Why the monitor refused an outcome.
#[derive(Debug, Clone, Copy, PartialEq, Eq, Structural)]
pub enum StepError {
    /// The outcome reports on a call that the current phase did not ask for.
    Unexpected,
}

/// The mathematical state of a monitor.
pub struct MonitorState {
    /// The backoff schedule that the monitor was made with.
    pub backoff: Seq<Duration>,
    /// Where the current run of failed attempts stands in the schedule.
    pub cursor: Cursor<Duration>,
    pub status: Status,
    pub phase: Phase,
}

impl MonitorState {
    /// The schedule holds a delay and the cursor runs over the schedule;
    /// while an instance is held, the connection counts as healthy and the
    /// cursor stands at the start of the schedule.
    pub open spec fn wf(self) -> bool {
        &&& self.backoff.len() > 0
        &&& self.cursor.input == self.backoff
        &&& self.cursor.wf()
        &&& self.phase is Streaming ==> self.status is Up && self.cursor.pos == 0
    }

    /// The state in which supervision starts.
    pub open spec fn initial(backoff: Seq<Duration>) -> Self {
        MonitorState {
            backoff,
            cursor: Cursor::fresh(backoff),
            status: Status::Up,
            phase: Phase::Connecting,
        }
    }

    /// Whether `outcome` can be reported in this state. Cancellation always
    /// can; a stopped monitor takes any report, since calls that were in
    /// flight may still end; otherwise the report has to be on the call that
    /// the phase asks for.
    pub open spec fn accepts<E>(self, outcome: Outcome<E>) -> bool {
        match self.phase {
            Phase::Stopped => true,
            Phase::Connecting => outcome is Established || outcome is EstablishFailed
                || outcome is Cancelled,
            Phase::Streaming => outcome is Polled || outcome is PollFailed || outcome is Cancelled,
        }
    }

    /// The state after `outcome` was reported. A report that is not accepted
    /// changes nothing.
    pub open spec fn next<E>(self, outcome: Outcome<E>) -> Self {
        if self.phase is Stopped || !self.accepts(outcome) {
            self
        } else {
            match outcome {
                Outcome::Cancelled => MonitorState { phase: Phase::Stopped, ..self },
                Outcome::Established => MonitorState {
                    cursor: Cursor::fresh(self.backoff),
                    status: Status::Up,
                    phase: Phase::Streaming,
                    ..self
                },
                Outcome::EstablishFailed => MonitorState {
                    cursor: self.cursor.advance(),
                    status: Status::Down,
                    ..self
                },
                Outcome::Polled(_) => self,
                Outcome::PollFailed => MonitorState { phase: Phase::Connecting, ..self },
            }
        }
    }

    /// What the driver is to do after an accepted `outcome`.
    pub open spec fn effect<E>(self, outcome: Outcome<E>) -> Effect<E> {
        if self.phase is Stopped {
            Effect::Stop
        } else {
            match outcome {
                Outcome::Cancelled => Effect::Stop,
                Outcome::Established => Effect::Connected,
                Outcome::EstablishFailed => Effect::Backoff {
                    severity: outage_severity(self.status),
                    delay: self.cursor.current().unwrap(),
                },
                Outcome::Polled(event) => Effect::Publish(event),
                Outcome::PollFailed => Effect::Grace { delay: grace_delay() },
            }
        }
    }

    /// The monitor's answer to `outcome`.
    pub open spec fn respond<E>(self, outcome: Outcome<E>) -> Result<Effect<E>, StepError> {
        if self.accepts(outcome) {
            Ok(self.effect(outcome))
        } else {
            Err(StepError::Unexpected)
        }
    }
}

/// The decisions of one supervised source: when to connect, when to poll,
/// how long to wait after a failure, and when to stop.
pub struct Monitor {
    backoff: Vec<Duration>,
    cursor: LastRepeatIter<Duration>,
    status: Status,
    phase: Phase,
}

impl View for Monitor {
    type V = MonitorState;

    closed spec fn view(&self) -> MonitorState {
        MonitorState {
            backoff: self.backoff@,
            cursor: self.cursor@,
            status: self.status,
            phase: self.phase,
        }
    }
}

/// A copy of `items`.
fn duplicate<T: Copy>(items: &Vec<T>) -> (copy: Vec<T>)
    ensures
        copy@ == items@,
{
    let mut copy: Vec<T> = Vec::new();
    let mut i: usize = 0;
    while i < items.len()
        invariant
            i <= items.len(),
            copy@ == items@.take(i as int),
        decreases items.len() - i,
    {
        copy.push(items[i]);
        i = i + 1;
        assert(copy@ =~= items@.take(i as int));
    }
    assert(items@.take(items.len() as int) =~= items@);
    copy
}

impl Monitor {
    #[verifier::type_invariant]
    spec fn valid(self) -> bool {
        self@.wf()
    }

    /// A monitor that is about to make its first attempt to connect. A
    /// schedule without a delay is refused: there would be nothing to wait
    /// for after a failed attempt.
    pub fn new(backoff: Vec<Duration>) -> (made: Result<Monitor, ConfigError>)
        ensures
            match made {
                Ok(monitor) => backoff@.len() > 0 && monitor@ == MonitorState::initial(backoff@),
                Err(error) => backoff@.len() == 0 && error == ConfigError::EmptyBackoff,
            },
    {
        if backoff.len() == 0 {
            return Err(ConfigError::EmptyBackoff);
        }
        let cursor = LastRepeatIter::new(duplicate(&backoff));
        Ok(Monitor { backoff, cursor, status: Status::Up, phase: Phase::Connecting })
    }

    /// What the monitor waits for: which call the driver is to make next.
    pub fn phase(&self) -> (phase: Phase)
        ensures
            phase == self@.phase,
            self@.wf(),
    {
        proof {
            use_type_invariant(self);
        }
        self.phase
    }

    /// Whether the connection counts as healthy.
    pub fn status(&self) -> (status: Status)
        ensures
            status == self@.status,
    {
        self.status
    }

    /// Takes the driver's report and answers with what to do before the next
    /// call. A report on a call that the phase did not ask for is refused and
    /// changes nothing.
    pub fn step<E>(&mut self, outcome: Outcome<E>) -> (answer: Result<Effect<E>, StepError>)
        ensures
            old(self)@.wf(),
            final(self)@.wf(),
            final(self)@ == old(self)@.next(outcome),
            answer == old(self)@.respond(outcome),
    {
        proof {
            use_type_invariant(&*self);
        }
        match self.phase {
            Phase::Stopped => Ok(Effect::Stop),
            Phase::Connecting => match outcome {
                Outcome::Cancelled => {
                    self.phase = Phase::Stopped;
                    Ok(Effect::Stop)
                },
                Outcome::Established => {
                    self.status.up();
                    self.cursor = LastRepeatIter::new(duplicate(&self.backoff));
                    self.phase = Phase::Streaming;
                    Ok(Effect::Connected)
                },
                Outcome::EstablishFailed => {
                    let severity = self.status.down();
                    let delay = self.cursor.next().unwrap();
                    Ok(Effect::Backoff { severity, delay })
                },
                _ => Err(StepError::Unexpected),
            },
            Phase::Streaming => match outcome {
                Outcome::Cancelled => {
                    self.phase = Phase::Stopped;
                    Ok(Effect::Stop)
                },
                Outcome::Polled(event) => Ok(Effect::Publish(event)),
                Outcome::PollFailed => {
                    self.phase = Phase::Connecting;
                    Ok(Effect::Grace { delay: Duration::from_millis(GRACE_MILLIS) })
                },
                _ => Err(StepError::Unexpected),
            },
        }
    }
}

} // verus!
