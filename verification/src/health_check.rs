//! The cron check-in around one poll cycle.  The HTTP calls and the clock
//! are the surrounding process's; what is kept and when the finishing
//! report is owed live here.

use vstd::prelude::*;

verus! {

/// The running check-in's start time, in milliseconds of the process
/// clock.
#[derive(Debug, Copy, Clone, PartialEq, Eq, Structural)]
pub struct HealthCheckInner(pub u64);

/// One check-in: its identifier and, when the starting call went through,
/// its timer.
#[derive(Debug)]
pub struct HealthCheck(pub String, pub Option<HealthCheckInner>);

impl HealthCheck {
    /// Record a started check-in.
    pub fn new(check_in_id: String, inner: Option<HealthCheckInner>) -> (h: Self)
        ensures
            h.0 == check_in_id,
            h.1 == inner,
    {
        HealthCheck(check_in_id, inner)
    }

    /// The finishing call is owed only when the starting call went
    /// through; otherwise finishing is a silent no-op.
    pub fn should_finish(&self) -> (r: bool)
        ensures
            r == (self.1 is Some),
    {
        self.1.is_some()
    }
}

} // verus!
