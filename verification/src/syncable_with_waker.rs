//! Driving an asynchronous stream through a synchronous interface with
//! wakers registered per operation direction. The waker registration itself
//! is runtime plumbing outside this crate; what belongs here is the choice
//! of direction each operation wakes on.

use vstd::prelude::*;

verus! {

/// Which of the two registered wakers an operation arms: reads wake the
/// read-side waker, writes and flushes the write-side one.
#[derive(Clone, Copy, Debug, PartialEq, Eq, Structural)]
pub enum WakerKind {
    Read,
    Write,
}

impl WakerKind {
    /// Whether this operation direction arms the read-side waker.
    pub fn is_read(&self) -> (b: bool)
        ensures
            b == (self is Read),
    {
        match self {
            WakerKind::Read => true,
            WakerKind::Write => false,
        }
    }
}

} // verus!
