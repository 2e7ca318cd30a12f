//! Loss and recovery.
use vstd::prelude::*;

verus! {

/// How the bytes in flight are limited.
#[derive(Debug, Clone, Copy, PartialEq, Eq, Structural)]
pub enum RecoveryState {
    /// Not at all.
    NotInRecovery,
    /// One more byte for each byte acknowledged.
    Conservation,
    /// Two more bytes for each byte acknowledged.
    Growth,
}

impl RecoveryState {
    /// Whether the bytes in flight are limited.
    pub fn in_recovery(&self) -> (limited: bool)
        ensures
            limited == (*self != RecoveryState::NotInRecovery),
    {
        !matches!(self, RecoveryState::NotInRecovery)
    }
}

/// The bytes lost since the last acknowledgement.
#[derive(Debug, Clone, Copy)]
pub struct LossState {
    pub lost_bytes: u64,
}

impl Default for LossState {
    fn default() -> (state: Self)
        ensures
            state.lost_bytes == 0,
    {
        LossState { lost_bytes: 0 }
    }
}

impl LossState {
    /// Forgets all losses.
    pub fn reset(&mut self)
        ensures
            final(self).lost_bytes == 0,
    {
        self.lost_bytes = 0;
    }

    /// Whether anything was lost.
    pub fn has_losses(&self) -> (lost: bool)
        ensures
            lost == (self.lost_bytes != 0),
    {
        self.lost_bytes != 0
    }
}

} // verus!
