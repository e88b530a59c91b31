//! The launch state machine.
//!
//! A launcher owns one guest launch and admits each privileged platform call
//! only in the right state: start once from the fresh state, any number of
//! data updates while started, one measurement, then any number of secret
//! injections before the single finish. A failed launch is left for an
//! explicit abort — a platform reset — rather than silent teardown, because
//! a half-initialized encrypted guest context can block later launches.
//! Every rejected call leaves the launcher unchanged and reports the state
//! it found.

use vstd::prelude::*;

use crate::session::{Secret, Start};

verus! {

/// Where a launch stands.
#[derive(Clone, Copy, Debug, PartialEq, Eq, Structural)]
pub enum LaunchState {
    /// Fresh: no platform call made yet.
    New,
    /// The guest context exists; memory may be fed and measured.
    Started,
    /// The firmware measurement was requested; secrets may be injected and
    /// the launch finished.
    Measured,
    /// The launch is over; the launcher is spent.
    Finished,
}

/// An operation was attempted against an incompatible launcher state.
#[derive(Clone, Copy, Debug, PartialEq, Eq, Structural)]
pub struct ProtocolStateError {
    /// The state the operation needs.
    pub expected: LaunchState,
    /// The state the launcher was in.
    pub found: LaunchState,
}

/// One guest launch: a value that sequences the privileged platform calls
/// and admits each only in the right state. The state is held privately and
/// is only ever advanced by the transitions below, so the call order they
/// enforce cannot be skipped or forged; `state()` reads it out.
#[derive(Debug)]
pub struct Launcher {
    state: LaunchState,
}

impl View for Launcher {
    type V = LaunchState;

    /// Where the launch stands.
    closed spec fn view(&self) -> LaunchState {
        self.state
    }
}

impl Launcher {
    /// A fresh launcher, before any platform call.
    pub fn new() -> (r: Launcher)
        ensures
            r@ is New,
    {
        Launcher { state: LaunchState::New }
    }

    /// Where the launch stands.
    pub fn state(&self) -> (r: LaunchState)
        ensures
            r == self@,
    {
        self.state
    }

    /// Admit the launch-start call, which creates the encrypted guest
    /// context from the session's start blob. Allowed exactly once, first.
    pub fn start(&mut self, start: &Start) -> (r: Result<(), ProtocolStateError>)
        ensures
            r is Ok <==> old(self)@ is New,
            r is Ok ==> (*final(self))@ is Started,
            r matches Err(e) ==> *final(self) == *old(self) && e == (ProtocolStateError {
                expected: LaunchState::New,
                found: old(self)@,
            }),
    {
        match self.state {
            LaunchState::New => {
                self.state = LaunchState::Started;
                Ok(())
            },
            found => Err(ProtocolStateError { expected: LaunchState::New, found }),
        }
    }

    /// Admit one update call, which feeds guest memory to the firmware
    /// digest. Allowed any number of times while started.
    pub fn update_data(&mut self, data: &[u8]) -> (r: Result<(), ProtocolStateError>)
        ensures
            r is Ok <==> old(self)@ is Started,
            *final(self) == *old(self),
            r matches Err(e) ==> e == (ProtocolStateError {
                expected: LaunchState::Started,
                found: old(self)@,
            }),
    {
        match self.state {
            LaunchState::Started => Ok(()),
            found => Err(ProtocolStateError { expected: LaunchState::Started, found }),
        }
    }

    /// Admit the measurement call, which makes the firmware report its
    /// launch digest. Allowed exactly once, after the updates.
    pub fn measure(&mut self) -> (r: Result<(), ProtocolStateError>)
        ensures
            r is Ok <==> old(self)@ is Started,
            r is Ok ==> (*final(self))@ is Measured,
            r matches Err(e) ==> *final(self) == *old(self) && e == (ProtocolStateError {
                expected: LaunchState::Started,
                found: old(self)@,
            }),
    {
        match self.state {
            LaunchState::Started => {
                self.state = LaunchState::Measured;
                Ok(())
            },
            found => Err(ProtocolStateError { expected: LaunchState::Started, found }),
        }
    }

    /// Admit one secret injection at a guest address. Allowed any number of
    /// times once measured — sensibly only after the measurement was
    /// verified, which producing the `Secret` already demands.
    pub fn inject(&mut self, secret: &Secret, guest_addr: u64) -> (r: Result<
        (),
        ProtocolStateError,
    >)
        ensures
            r is Ok <==> old(self)@ is Measured,
            *final(self) == *old(self),
            r matches Err(e) ==> e == (ProtocolStateError {
                expected: LaunchState::Measured,
                found: old(self)@,
            }),
    {
        match self.state {
            LaunchState::Measured => Ok(()),
            found => Err(ProtocolStateError { expected: LaunchState::Measured, found }),
        }
    }

    /// Admit the finish call, which hands the guest over to the scheduler
    /// and releases the launcher's exclusive hold. Allowed exactly once; a
    /// second attempt is rejected.
    pub fn finish(&mut self) -> (r: Result<(), ProtocolStateError>)
        ensures
            r is Ok <==> old(self)@ is Measured,
            r is Ok ==> (*final(self))@ is Finished,
            r matches Err(e) ==> *final(self) == *old(self) && e == (ProtocolStateError {
                expected: LaunchState::Measured,
                found: old(self)@,
            }),
    {
        match self.state {
            LaunchState::Measured => {
                self.state = LaunchState::Finished;
                Ok(())
            },
            found => Err(ProtocolStateError { expected: LaunchState::Measured, found }),
        }
    }

    /// Admit an explicit abort — a platform reset — from any state still
    /// holding the guest context. The launcher is spent afterwards.
    pub fn abort(&mut self) -> (r: Result<(), ProtocolStateError>)
        ensures
            r is Ok <==> !(old(self)@ is Finished),
            r is Ok ==> (*final(self))@ is Finished,
            r matches Err(e) ==> *final(self) == *old(self) && e == (ProtocolStateError {
                expected: LaunchState::New,
                found: old(self)@,
            }),
    {
        match self.state {
            LaunchState::Finished => Err(
                ProtocolStateError { expected: LaunchState::New, found: LaunchState::Finished },
            ),
            _ => {
                self.state = LaunchState::Finished;
                Ok(())
            },
        }
    }
}

} // verus!
