//! Driving an asynchronous stream through a synchronous interface: the
//! readiness decision, and the wrapper that carries the stream while an
//! outer polling loop supplies the readiness signals.

use vstd::prelude::*;

use crate::byte_stream::ByteStream;
use crate::errors::StreamError;

verus! {

/// The readiness decision of a synchronous operation over an asynchronous
/// stream: a ready outcome is returned as it is, and a stream that is not
/// ready yet surfaces as a would-block error instead of suspending.
pub fn ready_or_would_block<T>(poll: Option<Result<T, StreamError>>) -> (r: Result<
    T,
    StreamError,
>)
    ensures
        poll matches Some(ready) ==> r == ready,
        poll is None ==> r == Err::<T, StreamError>(StreamError::WouldBlock),
{
    match poll {
        Some(ready) => ready,
        None => Err(StreamError::WouldBlock),
    }
}

/// A stream driven through a synchronous interface; the polling context that
/// supplies readiness lives with the caller, outside the wrapper.
pub struct SyncableWithContextAsyncStream<S> {
    pub inner: S,
}

impl<S> SyncableWithContextAsyncStream<S> {
    /// Wrap a stream.
    pub fn new(inner: S) -> (r: Self)
        ensures
            r.inner == inner,
    {
        SyncableWithContextAsyncStream { inner }
    }

    /// Borrow the wrapped stream.
    pub fn get_ref(&self) -> (r: &S)
        ensures
            *r == self.inner,
    {
        &self.inner
    }

    /// Mutably borrow the wrapped stream.
    pub fn get_mut(&mut self) -> (r: &mut S)
        ensures
            *r == old(self).inner,
            final(self).inner == *final(r),
    {
        &mut self.inner
    }

    /// Unwrap the stream.
    pub fn into_inner(self) -> (r: S)
        ensures
            r == self.inner,
    {
        self.inner
    }
}

impl<S: ByteStream> ByteStream for SyncableWithContextAsyncStream<S> {
    open spec fn contents(&self) -> Seq<u8> {
        self.inner.contents()
    }

    open spec fn position(&self) -> int {
        self.inner.position()
    }

    open spec fn inv(&self) -> bool {
        self.inner.inv()
    }

    fn read(&mut self, buf: &mut Vec<u8>) -> (n: usize) {
        self.inner.read(buf)
    }

    fn write(&mut self, buf: &Vec<u8>) -> (n: usize) {
        self.inner.write(buf)
    }

    fn flush(&mut self) -> (r: Result<(), StreamError>) {
        self.inner.flush()
    }
}

} // verus!
