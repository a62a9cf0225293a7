//! One-shot lifecycle of the USB CDC session.
//!
//! The session (bus allocator, device instance, serial class) is built
//! exactly once at boot, guarded by this state machine; a second attempt is
//! a fatal programming error surfaced to the caller, which halts as the
//! startup sequence demands. Once active, the session lives for the rest of
//! program execution — there is no teardown.

use vstd::prelude::*;

verus! {

#[derive(Clone, Copy, Debug, PartialEq, Eq, Structural)]
pub enum SessionPhase {
    /// No initialization attempt yet.
    Uninitialized,
    /// The single allowed initialization is in progress.
    Initializing,
    /// Terminal steady state for the rest of execution.
    Active,
}

pub struct UsbCdcSession {
    pub phase: SessionPhase,
}

impl UsbCdcSession {
    pub fn new() -> (s: UsbCdcSession)
        ensures
            s.phase == SessionPhase::Uninitialized,
    {
        UsbCdcSession { phase: SessionPhase::Uninitialized }
    }

    /// Claims the single allowed initialization. Succeeds exactly on the
    /// first attempt; any later attempt is refused and leaves the phase
    /// unchanged, and the caller must treat the refusal as fatal.
    pub fn try_begin_init(&mut self) -> (ok: bool)
        ensures
            ok == (old(self).phase == SessionPhase::Uninitialized),
            final(self).phase == if ok {
                SessionPhase::Initializing
            } else {
                old(self).phase
            },
    {
        match self.phase {
            SessionPhase::Uninitialized => {
                self.phase = SessionPhase::Initializing;
                true
            },
            SessionPhase::Initializing => false,
            SessionPhase::Active => false,
        }
    }

    /// Marks the one permitted initialization as finished: the session is
    /// active from here on.
    pub fn complete_init(&mut self)
        requires
            old(self).phase == SessionPhase::Initializing,
        ensures
            final(self).phase == SessionPhase::Active,
    {
        self.phase = SessionPhase::Active;
    }

    pub fn is_active(&self) -> (r: bool)
        ensures
            r == (self.phase == SessionPhase::Active),
    {
        match self.phase {
            SessionPhase::Active => true,
            SessionPhase::Uninitialized => false,
            SessionPhase::Initializing => false,
        }
    }
}

} // verus!
