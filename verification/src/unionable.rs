//! The union stream: a two-armed container that erases the type difference
//! between two stream implementations behind the uniform byte-stream
//! interface, delegating every operation verbatim to whichever arm is held.

use vstd::prelude::*;

use crate::byte_stream::ByteStream;
use crate::errors::StreamError;

verus! {

/// Which of the two arms a union stream holds.
pub enum UnionInner<SL, SR> {
    One(SL),
    TheOther(SR),
}

/// Exactly one of two independently-typed streams; which arm is held is
/// fixed at construction and never changes.
pub struct UnionableAsyncStream<SL, SR> {
    pub inner: UnionInner<SL, SR>,
}

impl<SL, SR> UnionableAsyncStream<SL, SR> {
    /// Wrap the first arm.
    pub fn one(stream: SL) -> (r: Self)
        ensures
            r.inner == UnionInner::One::<SL, SR>(stream),
    {
        UnionableAsyncStream { inner: UnionInner::One(stream) }
    }

    /// Wrap the second arm.
    pub fn the_other(stream: SR) -> (r: Self)
        ensures
            r.inner == UnionInner::TheOther::<SL, SR>(stream),
    {
        UnionableAsyncStream { inner: UnionInner::TheOther(stream) }
    }
}

/// Delegation transparency: a union stream presents exactly the contents and
/// position of the stream it wraps, for either arm. Since the byte-stream
/// contract determines the outcome of every read and write from contents and
/// position alone, reads and writes through the union produce byte-identical
/// results to calling the wrapped stream directly.
pub proof fn lemma_union_transparency<SL: ByteStream, SR: ByteStream>(
    u: UnionableAsyncStream<SL, SR>,
)
    ensures
        u.inner matches UnionInner::One(s) ==> u.contents() == s.contents() && u.position()
            == s.position() && u.inv() == s.inv(),
        u.inner matches UnionInner::TheOther(s) ==> u.contents() == s.contents() && u.position()
            == s.position() && u.inv() == s.inv(),
{
}

impl<SL: ByteStream, SR: ByteStream> ByteStream for UnionableAsyncStream<SL, SR> {
    open spec fn contents(&self) -> Seq<u8> {
        match self.inner {
            UnionInner::One(s) => s.contents(),
            UnionInner::TheOther(s) => s.contents(),
        }
    }

    open spec fn position(&self) -> int {
        match self.inner {
            UnionInner::One(s) => s.position(),
            UnionInner::TheOther(s) => s.position(),
        }
    }

    open spec fn inv(&self) -> bool {
        match self.inner {
            UnionInner::One(s) => s.inv(),
            UnionInner::TheOther(s) => s.inv(),
        }
    }

    fn read(&mut self, buf: &mut Vec<u8>) -> (n: usize) {
        match &mut self.inner {
            UnionInner::One(s) => s.read(buf),
            UnionInner::TheOther(s) => s.read(buf),
        }
    }

    fn write(&mut self, buf: &Vec<u8>) -> (n: usize) {
        match &mut self.inner {
            UnionInner::One(s) => s.write(buf),
            UnionInner::TheOther(s) => s.write(buf),
        }
    }

    fn flush(&mut self) -> (r: Result<(), StreamError>) {
        match &mut self.inner {
            UnionInner::One(s) => s.flush(),
            UnionInner::TheOther(s) => s.flush(),
        }
    }
}

} // verus!
