//! The reverse-transition primitive: undoing a forward transition and
//! recovering the pre-transformation byte stream.

use vstd::prelude::*;

use crate::errors::StreamError;
use crate::upgradable::{Inner, UpgradableAsyncStream, Upgrader};

verus! {

/// A transformer capability that can also reverse its forward transition,
/// recovering the original stream from its output representation.
pub trait Downgrader<S>: Upgrader<S> {
    /// Whether a reverse transition is required.
    spec fn downgrade_required_spec(&self) -> bool;

    /// Characterizes the reverse operation: relates the output stream, the
    /// produced result, and the transformer's state after the call.
    spec fn downgrade_spec(&self, output: Self::Output, r: Result<S, StreamError>, after: Self) -> bool;

    /// Whether a reverse transition is required; an identity transformer
    /// answers false and its reverse operation is then never invoked.
    fn downgrade_required(&self) -> (b: bool)
        ensures
            b == self.downgrade_required_spec(),
    ;

    /// Consume the output representation and restore the original stream.
    fn downgrade(&mut self, output: Self::Output) -> (r: Result<S, StreamError>)
        requires
            old(self).downgrade_required_spec(),
        ensures
            old(self).downgrade_spec(output, r, *final(self)),
    ;
}

/// The identity transformer: no reverse transition is ever required, and
/// invoking one is unreachable.
impl<S> Downgrader<S> for () {
    open spec fn downgrade_required_spec(&self) -> bool {
        false
    }

    open spec fn downgrade_spec(&self, output: S, r: Result<S, StreamError>, after: Self) -> bool {
        false
    }

    fn downgrade_required(&self) -> (b: bool) {
        false
    }

    fn downgrade(&mut self, output: S) -> (r: Result<S, StreamError>) {
        vstd::pervasive::unreached()
    }
}

/// An upgradable stream whose transformer can also reverse the transition.
pub type GradableAsyncStream<S, SU> = UpgradableAsyncStream<S, SU>;

impl<S, SU: Downgrader<S>> UpgradableAsyncStream<S, SU> {
    /// Nothing can be reversed while pending; in the transformed state this
    /// delegates to the transformer's declared reverse requirement.
    pub fn downgrade_required(&self) -> (b: bool)
        requires
            !self.is_consumed_spec(),
        ensures
            b == (self.is_upgraded_spec()
                && self.upgraded_upgrader_spec().downgrade_required_spec()),
    {
        match &self.inner {
            Inner::Pending { .. } => false,
            Inner::Upgraded { upgrader, .. } => upgrader.downgrade_required(),
            Inner::Consumed => vstd::pervasive::unreached(),
        }
    }

    /// Perform the reverse transition.
    ///
    /// Reversing a stream that was never forward-transformed, or one whose
    /// transformer declares that no reverse is required, is refused with the
    /// respective discriminant and leaves the stream unchanged. When the
    /// transformer's own reverse operation fails, its error is surfaced
    /// unchanged and the stream is left consumed and unusable.
    pub fn downgrade(&mut self) -> (r: Result<(), StreamError>)
        requires
            !old(self).is_consumed_spec(),
        ensures
            old(self).is_pending_spec() ==> r == Err::<(), StreamError>(StreamError::NotAllowed)
                && *final(self) == *old(self),
            old(self).is_upgraded_spec() && !old(self).upgraded_upgrader_spec()
                .downgrade_required_spec() ==> r == Err::<(), StreamError>(
                StreamError::DowngradeNotRequired,
            ) && *final(self) == *old(self),
            old(self).is_upgraded_spec() && old(self).upgraded_upgrader_spec()
                .downgrade_required_spec() ==> match r {
                Ok(()) => final(self).is_pending_spec() && old(self).upgraded_upgrader_spec()
                    .downgrade_spec(
                    old(self).upgraded_output_spec(),
                    Ok(final(self).pending_stream_spec()),
                    final(self).pending_upgrader_spec(),
                ),
                Err(e) => final(self).is_consumed_spec() && exists|after: SU|
                    old(self).upgraded_upgrader_spec().downgrade_spec(
                        old(self).upgraded_output_spec(),
                        Err(e),
                        after,
                    ),
            },
    {
        match &self.inner {
            Inner::Pending { .. } => {
                return Err(StreamError::NotAllowed);
            }
            Inner::Upgraded { upgrader, .. } => {
                if !upgrader.downgrade_required() {
                    return Err(StreamError::DowngradeNotRequired);
                }
            }
            Inner::Consumed => {
                return vstd::pervasive::unreached();
            }
        }
        let mut taken = Inner::Consumed;
        core::mem::swap(&mut self.inner, &mut taken);
        match taken {
            Inner::Upgraded { output, mut upgrader } => {
                match upgrader.downgrade(output) {
                    Ok(stream) => {
                        self.inner = Inner::Pending { stream, upgrader };
                        Ok(())
                    }
                    Err(e) => {
                        proof {
                            assert(old(self).upgraded_upgrader_spec().downgrade_spec(
                                old(self).upgraded_output_spec(),
                                Err(e),
                                upgrader,
                            ));
                        }
                        Err(e)
                    }
                }
            }
            _ => vstd::pervasive::unreached(),
        }
    }
}

} // verus!
