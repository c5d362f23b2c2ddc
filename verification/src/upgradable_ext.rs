//! Extensions for transformers whose output representation keeps carrying
//! the original stream: borrowing it through the output, and unwrapping the
//! composition back into a plain stream.

use vstd::prelude::*;

use crate::errors::StreamError;
use crate::upgradable::{Inner, UpgradableAsyncStream, Upgrader};

verus! {

/// A transformer whose output representation carries the original stream and
/// can hand out references to it.
pub trait UpgraderExtRefer<S>: Upgrader<S> {
    /// The original stream carried inside an output representation.
    spec fn refer_spec(output: Self::Output) -> S;

    /// The output representation with its carried stream replaced.
    spec fn replace_spec(output: Self::Output, stream: S) -> Self::Output;

    /// Borrow the carried stream.
    fn get_ref(output: &Self::Output) -> (r: &S)
        ensures
            *r == Self::refer_spec(*output),
    ;

    /// Mutably borrow the carried stream.
    fn get_mut(output: &mut Self::Output) -> (r: &mut S)
        ensures
            *r == Self::refer_spec(*old(output)),
            *final(output) == Self::replace_spec(*old(output), *final(r)),
    ;
}

/// The identity transformer's output is the stream itself.
impl<S> UpgraderExtRefer<S> for () {
    open spec fn refer_spec(output: S) -> S {
        output
    }

    open spec fn replace_spec(output: S, stream: S) -> S {
        stream
    }

    fn get_ref(output: &S) -> (r: &S) {
        output
    }

    fn get_mut(output: &mut S) -> (r: &mut S) {
        output
    }
}

impl<S, SU: UpgraderExtRefer<S>> UpgradableAsyncStream<S, SU> {
    /// Borrow the underlying stream, in whichever state it is carried.
    pub fn get_ref(&self) -> (r: &S)
        requires
            !self.is_consumed_spec(),
        ensures
            self.is_pending_spec() ==> *r == self.pending_stream_spec(),
            self.is_upgraded_spec() ==> *r == SU::refer_spec(self.upgraded_output_spec()),
    {
        match &self.inner {
            Inner::Pending { stream, .. } => stream,
            Inner::Upgraded { output, .. } => SU::get_ref(output),
            Inner::Consumed => vstd::pervasive::unreached(),
        }
    }

    /// Mutably borrow the underlying stream, in whichever state it is
    /// carried.
    pub fn get_mut(&mut self) -> (r: &mut S)
        requires
            !old(self).is_consumed_spec(),
        ensures
            old(self).is_pending_spec() ==> *r == old(self).pending_stream_spec()
                && final(self).inner == (Inner::Pending {
                stream: *final(r),
                upgrader: old(self).pending_upgrader_spec(),
            }),
            old(self).is_upgraded_spec() ==> *r == SU::refer_spec(old(self).upgraded_output_spec())
                && final(self).inner == (Inner::Upgraded {
                output: SU::replace_spec(old(self).upgraded_output_spec(), *final(r)),
                upgrader: old(self).upgraded_upgrader_spec(),
            }),
    {
        match &mut self.inner {
            Inner::Pending { stream, .. } => stream,
            Inner::Upgraded { output, .. } => SU::get_mut(output),
            Inner::Consumed => vstd::pervasive::unreached(),
        }
    }
}

/// A transformer whose output representation can be unwrapped back into the
/// original stream without a reverse handshake.
pub trait UpgraderExtIntoStream<S>: Upgrader<S> {
    /// Characterizes the unwrapping: relates the output representation to
    /// the recovered stream.
    spec fn into_stream_spec(output: Self::Output, r: Result<S, StreamError>) -> bool;

    /// Unwrap the output representation into the stream it carries.
    fn into_stream(output: Self::Output) -> (r: Result<S, StreamError>)
        ensures
            Self::into_stream_spec(output, r),
    ;
}

/// The identity transformer's output unwraps to itself.
impl<S> UpgraderExtIntoStream<S> for () {
    open spec fn into_stream_spec(output: S, r: Result<S, StreamError>) -> bool {
        r == Ok::<S, StreamError>(output)
    }

    fn into_stream(output: S) -> (r: Result<S, StreamError>) {
        Ok(output)
    }
}

impl<S, SU: UpgraderExtIntoStream<S>> UpgradableAsyncStream<S, SU> {
    /// Unwrap the composition into the plain stream, whichever state it is
    /// in.
    pub fn into_stream(self) -> (r: Result<S, StreamError>)
        requires
            !self.is_consumed_spec(),
        ensures
            self.is_pending_spec() ==> r == Ok::<S, StreamError>(self.pending_stream_spec()),
            self.is_upgraded_spec() ==> SU::into_stream_spec(self.upgraded_output_spec(), r),
    {
        match self.inner {
            Inner::Pending { stream, .. } => Ok(stream),
            Inner::Upgraded { output, .. } => SU::into_stream(output),
            Inner::Consumed => vstd::pervasive::unreached(),
        }
    }
}

impl<S, SU: Upgrader<S>> UpgradableAsyncStream<S, SU> {
    /// Take the original transport back out of a still-pending stream; on an
    /// already-transformed stream this is refused.
    pub fn try_into_stream(self) -> (r: Result<S, StreamError>)
        requires
            !self.is_consumed_spec(),
        ensures
            self.is_pending_spec() ==> r == Ok::<S, StreamError>(self.pending_stream_spec()),
            self.is_upgraded_spec() ==> r == Err::<S, StreamError>(StreamError::NotAllowed),
    {
        match self.inner {
            Inner::Pending { stream, .. } => Ok(stream),
            Inner::Upgraded { .. } => Err(StreamError::NotAllowed),
            Inner::Consumed => vstd::pervasive::unreached(),
        }
    }

    /// Take the transformed output out of an upgraded stream; on a pending
    /// stream this is refused.
    pub fn try_into_upgraded_stream(self) -> (r: Result<SU::Output, StreamError>)
        requires
            !self.is_consumed_spec(),
        ensures
            self.is_upgraded_spec() ==> r == Ok::<SU::Output, StreamError>(
                self.upgraded_output_spec(),
            ),
            self.is_pending_spec() ==> r == Err::<SU::Output, StreamError>(StreamError::NotAllowed),
    {
        match self.inner {
            Inner::Pending { .. } => Err(StreamError::NotAllowed),
            Inner::Upgraded { output, .. } => Ok(output),
            Inner::Consumed => vstd::pervasive::unreached(),
        }
    }
}

} // verus!
