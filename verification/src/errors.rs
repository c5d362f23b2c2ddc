//! The error taxonomy of the transition state machine.

use vstd::prelude::*;

verus! {

/// Why a transition or a byte-stream operation was refused.
///
/// Sequencing and policy violations carry a stable discriminant so that
/// callers can branch on the reason rather than on message text; a failure
/// reported by the transformer itself is carried through unchanged as
/// `Transformer` with the collaborator's error code.
#[derive(Clone, Copy, Debug, PartialEq, Eq, Structural)]
pub enum StreamError {
    /// A forward transition was requested although the transformer
    /// declared that none is required.
    UpgradeNotRequired,
    /// A reverse transition was requested although the transformer
    /// declared that none is required.
    DowngradeNotRequired,
    /// The operation is not legal in the stream's current state, for
    /// example a second forward transition on an already-transformed
    /// stream.
    NotAllowed,
    /// The transformer's own forward or reverse operation failed; the
    /// code identifies the collaborator's report.
    Transformer(u64),
    /// The inner stream was not ready to make progress.
    WouldBlock,
    /// The inner stream was not ready before the deadline elapsed.
    TimedOut,
}

impl StreamError {
    /// The stable human-readable description of the discriminant.
    pub fn message(&self) -> (r: &'static str)
        ensures
            self is UpgradeNotRequired ==> r@ == "upgrade not required"@,
            self is DowngradeNotRequired ==> r@ == "downgrade not required"@,
            self is NotAllowed ==> r@ == "not allow"@,
            self is Transformer ==> r@ == "transformer failure"@,
            self is WouldBlock ==> r@ == "would block"@,
            self is TimedOut ==> r@ == "timed out"@,
    {
        match self {
            StreamError::UpgradeNotRequired => "upgrade not required",
            StreamError::DowngradeNotRequired => "downgrade not required",
            StreamError::NotAllowed => "not allow",
            StreamError::Transformer(_) => "transformer failure",
            StreamError::WouldBlock => "would block",
            StreamError::TimedOut => "timed out",
        }
    }
}

} // verus!
