//! The forward-transition primitive: a stream that can be upgraded at most
//! once by a pluggable transformer capability.

use vstd::prelude::*;

use crate::byte_stream::ByteStream;
use crate::errors::StreamError;

verus! {

/// A transformer capability: knows how to turn a stream of type `S` into its
/// output representation (for example by running a handshake over it), and
/// declares up front whether that forward transition is required at all.
///
/// The forward operation is fallible and may change the transformer's own
/// state; each implementation characterizes both through `upgrade_spec`.
pub trait Upgrader<S>: Sized {
    /// The post-transformation stream representation.
    type Output;

    /// Whether a forward transition is required.
    spec fn upgrade_required_spec(&self) -> bool;

    /// Characterizes the forward operation: relates the input stream, the
    /// produced result, and the transformer's state after the call.
    spec fn upgrade_spec(&self, stream: S, r: Result<Self::Output, StreamError>, after: Self) -> bool;

    /// Whether a forward transition is required; an identity transformer
    /// answers false and its forward operation is then never invoked.
    fn upgrade_required(&self) -> (b: bool)
        ensures
            b == self.upgrade_required_spec(),
    ;

    /// Consume the input stream and produce the output representation.
    fn upgrade(&mut self, stream: S) -> (r: Result<Self::Output, StreamError>)
        requires
            old(self).upgrade_required_spec(),
        ensures
            old(self).upgrade_spec(stream, r, *final(self)),
    ;
}

/// The identity transformer: no forward transition is ever required, and
/// invoking one is unreachable.
impl<S> Upgrader<S> for () {
    type Output = S;

    open spec fn upgrade_required_spec(&self) -> bool {
        false
    }

    open spec fn upgrade_spec(&self, stream: S, r: Result<S, StreamError>, after: Self) -> bool {
        false
    }

    fn upgrade_required(&self) -> (b: bool) {
        false
    }

    fn upgrade(&mut self, stream: S) -> (r: Result<S, StreamError>) {
        vstd::pervasive::unreached()
    }
}

/// The state held by an upgradable stream: the original transport while the
/// transition is pending, the transformer's output once it has happened, and
/// a transient consumed placeholder that exists only while a transition is
/// being performed or after its forward operation failed.
pub enum Inner<S, SU: Upgrader<S>> {
    Pending { stream: S, upgrader: SU },
    Upgraded { output: SU::Output, upgrader: SU },
    Consumed,
}

/// A stream plus a transformer capability, performing the forward transition
/// at most once and offering the byte-stream interface across every state.
pub struct UpgradableAsyncStream<S, SU: Upgrader<S>> {
    pub inner: Inner<S, SU>,
}

impl<S, SU: Upgrader<S>> UpgradableAsyncStream<S, SU> {
    /// No transition has been attempted yet.
    pub open spec fn is_pending_spec(&self) -> bool {
        self.inner is Pending
    }

    /// The forward transition has happened.
    pub open spec fn is_upgraded_spec(&self) -> bool {
        self.inner is Upgraded
    }

    /// The transient placeholder state: reaching it outside a transition is
    /// a contract violation, and a stream whose transition failed stays here
    /// and is unusable.
    pub open spec fn is_consumed_spec(&self) -> bool {
        self.inner is Consumed
    }

    /// The transport held while pending.
    pub open spec fn pending_stream_spec(&self) -> S {
        self.inner->Pending_stream
    }

    /// The transformer held while pending.
    pub open spec fn pending_upgrader_spec(&self) -> SU {
        self.inner->Pending_upgrader
    }

    /// The output stream held once upgraded.
    pub open spec fn upgraded_output_spec(&self) -> SU::Output {
        self.inner->Upgraded_output
    }

    /// The transformer retained through the forward transition.
    pub open spec fn upgraded_upgrader_spec(&self) -> SU {
        self.inner->Upgraded_upgrader
    }

    /// A fresh, not yet transformed stream.
    pub fn new(stream: S, upgrader: SU) -> (r: Self)
        ensures
            r.inner == (Inner::Pending { stream, upgrader }),
    {
        UpgradableAsyncStream { inner: Inner::Pending { stream, upgrader } }
    }

    /// A stream constructed directly in the transformed state.
    pub fn with_upgraded_stream_and_upgrader(stream: SU::Output, upgrader: SU) -> (r: Self)
        ensures
            r.inner == (Inner::Upgraded { output: stream, upgrader }),
    {
        UpgradableAsyncStream { inner: Inner::Upgraded { output: stream, upgrader } }
    }

    /// True exactly in the transformed state.
    pub fn is_upgraded(&self) -> (b: bool)
        ensures
            b == self.is_upgraded_spec(),
    {
        match &self.inner {
            Inner::Upgraded { .. } => true,
            _ => false,
        }
    }

    /// In the pending state this delegates to the transformer's declared
    /// requirement; in the transformed state nothing further is required.
    pub fn upgrade_required(&self) -> (b: bool)
        requires
            !self.is_consumed_spec(),
        ensures
            b == (self.is_pending_spec() && self.pending_upgrader_spec().upgrade_required_spec()),
    {
        match &self.inner {
            Inner::Pending { upgrader, .. } => upgrader.upgrade_required(),
            Inner::Upgraded { .. } => false,
            Inner::Consumed => vstd::pervasive::unreached(),
        }
    }

    /// Perform the forward transition.
    ///
    /// A transition that the transformer declared unnecessary and a repeated
    /// transition are refused with their own discriminants and leave the
    /// stream unchanged. When the transformer's own forward operation fails,
    /// its error is surfaced unchanged and the stream is left consumed: the
    /// original transport is not restorable and the instance must be
    /// discarded.
    pub fn upgrade(&mut self) -> (r: Result<(), StreamError>)
        requires
            !old(self).is_consumed_spec(),
        ensures
            old(self).is_pending_spec() && !old(self).pending_upgrader_spec().upgrade_required_spec()
                ==> r == Err::<(), StreamError>(StreamError::UpgradeNotRequired) && *final(self)
                == *old(self),
            old(self).is_upgraded_spec() ==> r == Err::<(), StreamError>(StreamError::NotAllowed)
                && *final(self) == *old(self),
            old(self).is_pending_spec() && old(self).pending_upgrader_spec().upgrade_required_spec()
                ==> match r {
                Ok(()) => final(self).is_upgraded_spec() && old(self).pending_upgrader_spec()
                    .upgrade_spec(
                    old(self).pending_stream_spec(),
                    Ok(final(self).upgraded_output_spec()),
                    final(self).upgraded_upgrader_spec(),
                ),
                Err(e) => final(self).is_consumed_spec() && exists|after: SU|
                    old(self).pending_upgrader_spec().upgrade_spec(
                        old(self).pending_stream_spec(),
                        Err(e),
                        after,
                    ),
            },
    {
        match &self.inner {
            Inner::Pending { upgrader, .. } => {
                if !upgrader.upgrade_required() {
                    return Err(StreamError::UpgradeNotRequired);
                }
            }
            Inner::Upgraded { .. } => {
                return Err(StreamError::NotAllowed);
            }
            Inner::Consumed => {
                return vstd::pervasive::unreached();
            }
        }
        let mut taken = Inner::Consumed;
        core::mem::swap(&mut self.inner, &mut taken);
        match taken {
            Inner::Pending { stream, mut upgrader } => {
                match upgrader.upgrade(stream) {
                    Ok(output) => {
                        self.inner = Inner::Upgraded { output, upgrader };
                        Ok(())
                    }
                    Err(e) => {
                        proof {
                            assert(old(self).pending_upgrader_spec().upgrade_spec(
                                old(self).pending_stream_spec(),
                                Err(e),
                                upgrader,
                            ));
                        }
                        Err(e)
                    }
                }
            }
            _ => vstd::pervasive::unreached(),
        }
    }
}

impl<S> UpgradableAsyncStream<S, ()> {
    /// A pending stream with the identity transformer.
    pub fn with_stream(stream: S) -> (r: Self)
        ensures
            r.inner == (Inner::Pending { stream, upgrader: () }),
    {
        UpgradableAsyncStream { inner: Inner::Pending { stream, upgrader: () } }
    }

    /// An already-transformed stream with the identity transformer.
    pub fn with_upgraded_stream(stream: S) -> (r: Self)
        ensures
            r.inner == (Inner::Upgraded { output: stream, upgrader: () }),
    {
        UpgradableAsyncStream { inner: Inner::Upgraded { output: stream, upgrader: () } }
    }
}

impl<S, SU> ByteStream for UpgradableAsyncStream<S, SU> where
    S: ByteStream,
    SU: Upgrader<S>,
    SU::Output: ByteStream,
 {
    open spec fn contents(&self) -> Seq<u8> {
        match self.inner {
            Inner::Pending { stream, .. } => stream.contents(),
            Inner::Upgraded { output, .. } => output.contents(),
            Inner::Consumed => Seq::empty(),
        }
    }

    open spec fn position(&self) -> int {
        match self.inner {
            Inner::Pending { stream, .. } => stream.position(),
            Inner::Upgraded { output, .. } => output.position(),
            Inner::Consumed => 0,
        }
    }

    open spec fn inv(&self) -> bool {
        match self.inner {
            Inner::Pending { stream, .. } => stream.inv(),
            Inner::Upgraded { output, .. } => output.inv(),
            Inner::Consumed => false,
        }
    }

    fn read(&mut self, buf: &mut Vec<u8>) -> (n: usize) {
        match &mut self.inner {
            Inner::Pending { stream, .. } => stream.read(buf),
            Inner::Upgraded { output, .. } => output.read(buf),
            Inner::Consumed => vstd::pervasive::unreached(),
        }
    }

    fn write(&mut self, buf: &Vec<u8>) -> (n: usize) {
        match &mut self.inner {
            Inner::Pending { stream, .. } => stream.write(buf),
            Inner::Upgraded { output, .. } => output.write(buf),
            Inner::Consumed => vstd::pervasive::unreached(),
        }
    }

    fn flush(&mut self) -> (r: Result<(), StreamError>) {
        match &mut self.inner {
            Inner::Pending { stream, .. } => stream.flush(),
            Inner::Upgraded { output, .. } => output.flush(),
            Inner::Consumed => vstd::pervasive::unreached(),
        }
    }
}

} // verus!
