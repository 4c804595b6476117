use vstd::prelude::*;

verus! {

/// Why a step of the daemon failed.
///
/// All kinds but `ConfigMissing` are recoverable: the cycle is abandoned,
/// the cached address stays as it was, and the next cycle tries again.
#[derive(Clone, Copy, Debug, PartialEq, Eq, Structural)]
pub enum SyncError {
    /// The request could not be made or its body could not be read.
    Transport,
    /// The provider answered with a status other than 200.
    UnexpectedStatus(u16),
    /// Status 200, but the provider's own success flag was false.
    ApiFailure,
    /// The reply body does not have the shape of a provider envelope.
    Malformed,
    /// The trace body holds no `ip=` line.
    NotFound,
    /// A required setting is absent or unusable; fatal at startup.
    ConfigMissing,
}

impl SyncError {
    /// Whether the daemon may carry on after this error.
    pub fn is_recoverable(&self) -> (r: bool)
        ensures
            r == !(*self is ConfigMissing),
    {
        !matches!(self, SyncError::ConfigMissing)
    }
}

} // verus!
