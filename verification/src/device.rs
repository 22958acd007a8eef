//! GPU device creation with a single deterministic fallback.
//!
//! Device creation first asks for a hardware-accelerated device. Exactly one
//! failure classification — the driver reporting the request as unsupported —
//! triggers one retry with the software driver; every other failure is final.
//! The attempts themselves are platform calls made by the surrounding binary;
//! this state machine decides which driver to try next and records the
//! outcome, so the one-retry policy is a proved invariant rather than a
//! convention.

use vstd::prelude::*;

verus! {

/// Which driver a device-creation attempt asks for.
#[derive(Clone, Copy, Debug, PartialEq, Eq, Structural)]
pub enum DriverKind {
    /// The hardware-accelerated driver, always tried first.
    Hardware,
    /// The software (reference) driver, tried only as the fallback.
    Software,
}

/// Classification of a failed device-creation attempt.
#[derive(Clone, Copy, Debug, PartialEq, Eq, Structural)]
pub enum DeviceError {
    /// The driver type was reported as unsupported; creation may fall back.
    Unsupported,
    /// Any other failure, by its raw platform result code; final.
    Other(i32),
}

/// The device-creation protocol: which driver to attempt next, and the
/// terminal outcome once no attempt is pending.
pub struct DeviceCreation {
    pending: Option<DriverKind>,
    outcome: Option<Result<DriverKind, DeviceError>>,
    attempts: Ghost<Seq<DriverKind>>,
    reports: Ghost<Seq<Result<(), DeviceError>>>,
}

impl DeviceCreation {
    /// Drivers attempted and reported so far, in order.
    pub closed spec fn attempts(&self) -> Seq<DriverKind> {
        self.attempts@
    }

    /// The reported result of each attempt, in the same order.
    pub closed spec fn reports(&self) -> Seq<Result<(), DeviceError>> {
        self.reports@
    }

    /// The driver the next attempt must use, if one is still owed.
    pub closed spec fn pending(&self) -> Option<DriverKind> {
        self.pending
    }

    /// The terminal outcome: the driver that succeeded, or the final error.
    pub closed spec fn outcome(&self) -> Option<Result<DriverKind, DeviceError>> {
        self.outcome
    }

    /// Whether the protocol has finished.
    pub open spec fn is_finished(&self) -> bool {
        self.outcome() is Some
    }

    /// The protocol invariant: attempts follow the hardware-then-fallback
    /// order, the software driver is attempted exactly when the hardware
    /// attempt reported "unsupported", and the outcome mirrors the last
    /// report.
    pub open spec fn wf(&self) -> bool {
        &&& self.reports().len() == self.attempts().len()
        &&& self.attempts().len() <= 2
        &&& (self.pending() is Some <==> self.outcome() is None)
        &&& (self.attempts().len() == 0 ==> self.pending() == Some(DriverKind::Hardware))
        &&& (self.attempts().len() >= 1 ==> self.attempts()[0] == DriverKind::Hardware)
        &&& (self.attempts().len() == 1 ==> (if self.reports()[0] == Err::<(), DeviceError>(
            DeviceError::Unsupported,
        ) {
            self.pending() == Some(DriverKind::Software)
        } else {
            self.outcome() == Some(result_of(DriverKind::Hardware, self.reports()[0]))
        }))
        &&& (self.attempts().len() == 2 ==> {
            &&& self.attempts()[1] == DriverKind::Software
            &&& self.reports()[0] == Err::<(), DeviceError>(DeviceError::Unsupported)
            &&& self.outcome() == Some(result_of(DriverKind::Software, self.reports()[1]))
        })
    }

    /// A fresh protocol: the hardware driver is to be attempted first.
    pub fn new() -> (d: DeviceCreation)
        ensures
            d.wf(),
            d.attempts() == Seq::<DriverKind>::empty(),
            d.pending() == Some(DriverKind::Hardware),
            !d.is_finished(),
    {
        DeviceCreation {
            pending: Some(DriverKind::Hardware),
            outcome: None,
            attempts: Ghost(Seq::empty()),
            reports: Ghost(Seq::empty()),
        }
    }

    /// The driver the caller must attempt next, if the protocol is not done.
    pub fn next_attempt(&self) -> (d: Option<DriverKind>)
        ensures
            d == self.pending(),
    {
        self.pending
    }

    /// Report the result of the pending attempt. An "unsupported" report on
    /// the hardware attempt schedules the software fallback; any other
    /// report — success, or any other error, on either driver — finishes the
    /// protocol with that attempt's outcome.
    pub fn report(&mut self, result: Result<(), DeviceError>)
        requires
            old(self).wf(),
            !old(self).is_finished(),
        ensures
            final(self).wf(),
            final(self).attempts() == old(self).attempts().push(
                old(self).pending()->Some_0,
            ),
            final(self).reports() == old(self).reports().push(result),
            (result == Err::<(), DeviceError>(DeviceError::Unsupported) && old(self).pending()
                == Some(DriverKind::Hardware)) ==> {
                &&& final(self).pending() == Some(DriverKind::Software)
                &&& !final(self).is_finished()
            },
            !(result == Err::<(), DeviceError>(DeviceError::Unsupported) && old(self).pending()
                == Some(DriverKind::Hardware)) ==> {
                &&& final(self).is_finished()
                &&& final(self).outcome() == Some(
                    result_of(old(self).pending()->Some_0, result),
                )
            },
    {
        let tried = match self.pending {
            Some(d) => d,
            None => {
                proof {
                    assert(false);  // an attempt is pending, by the precondition
                }
                DriverKind::Hardware
            },
        };
        proof {
            self.attempts@ = self.attempts@.push(tried);
            self.reports@ = self.reports@.push(result);
        }
        match result {
            Ok(()) => {
                self.pending = None;
                self.outcome = Some(Ok(tried));
            },
            Err(DeviceError::Unsupported) => {
                if matches!(tried, DriverKind::Hardware) {
                    self.pending = Some(DriverKind::Software);
                } else {
                    self.pending = None;
                    self.outcome = Some(Err(DeviceError::Unsupported));
                }
            },
            Err(DeviceError::Other(code)) => {
                self.pending = None;
                self.outcome = Some(Err(DeviceError::Other(code)));
            },
        }
    }

    /// The terminal outcome, once the protocol has finished.
    pub fn take_outcome(&self) -> (r: Option<Result<DriverKind, DeviceError>>)
        ensures
            r == self.outcome(),
    {
        self.outcome
    }
}

/// The terminal outcome of an attempt with driver `d` that reported `r`.
pub open spec fn result_of(d: DriverKind, r: Result<(), DeviceError>) -> Result<
    DriverKind,
    DeviceError,
> {
    match r {
        Ok(_) => Ok(d),
        Err(e) => Err(e),
    }
}

/// The one-retry policy: the hardware driver is always attempted first; a
/// second attempt exists exactly when the hardware attempt reported
/// "unsupported", and that second attempt uses the software driver; no run
/// ever makes more than two attempts.
pub proof fn lemma_single_fallback(d: DeviceCreation)
    requires
        d.wf(),
    ensures
        d.attempts().len() <= 2,
        d.attempts().len() >= 1 ==> d.attempts()[0] == DriverKind::Hardware,
        d.attempts().len() == 2 ==> d.attempts()[1] == DriverKind::Software && d.reports()[0]
            == Err::<(), DeviceError>(DeviceError::Unsupported),
        d.attempts().len() >= 1 && d.reports()[0] != Err::<(), DeviceError>(
            DeviceError::Unsupported,
        ) ==> d.attempts().len() == 1 && d.is_finished(),
        d.attempts().len() >= 1 && d.reports()[0] == Err::<(), DeviceError>(
            DeviceError::Unsupported,
        ) ==> (d.attempts().len() == 2 || d.pending() == Some(DriverKind::Software)),
{
}

} // verus!
