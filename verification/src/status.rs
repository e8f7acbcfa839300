//! Liveness of the supervised connection.

use vstd::prelude::*;

verus! {

/// Whether the supervised connection is currently healthy.
#[derive(Debug, Clone, Copy, PartialEq, Eq, Structural)]
pub enum Status {
    Up,
    Down,
}

/// How loudly a failed connection attempt is reported.
#[derive(Debug, Clone, Copy, PartialEq, Eq, Structural)]
pub enum Severity {
    /// The connection was healthy until now: a new outage.
    Warn,
    /// The connection was already down: the outage goes on.
    Info,
}

/// The report that marking `before` as down calls for.
pub open spec fn outage_severity(before: Status) -> Severity {
    match before {
        Status::Up => Severity::Warn,
        Status::Down => Severity::Info,
    }
}

impl Default for Status {
    fn default() -> (status: Self)
        ensures
            status == Status::Up,
    {
        Status::Up
    }
}

impl Status {
    /// Marks the connection healthy, whatever it was before.
    pub fn up(&mut self)
        ensures
            *final(self) == Status::Up,
        no_unwind
    {
        *self = Status::Up;
    }

    /// Marks the connection down and says how the failure is to be reported:
    /// as a warning when it ends a healthy spell, as information otherwise.
    pub fn down(&mut self) -> (severity: Severity)
        ensures
            *final(self) == Status::Down,
            severity == outage_severity(*old(self)),
        no_unwind
    {
        let severity = match *self {
            Status::Up => Severity::Warn,
            Status::Down => Severity::Info,
        };
        *self = Status::Down;
        severity
    }
}

} // verus!
