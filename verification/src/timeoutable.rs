//! Deadline handling around a single byte-stream operation: the decision of
//! what one poll of an operation-with-deadline resolves to, given the
//! operation's own readiness and whether the deadline has elapsed.

use vstd::prelude::*;

use crate::errors::StreamError;

verus! {

/// One poll of an operation wrapped with a deadline: a ready outcome wins
/// over the deadline and is returned unchanged; an operation that is not
/// ready fails with a timeout once the deadline has elapsed, and otherwise
/// stays pending.
pub fn resolve_timeout_poll<T>(
    io: Option<Result<T, StreamError>>,
    deadline_elapsed: bool,
) -> (r: Option<Result<T, StreamError>>)
    ensures
        io matches Some(ready) ==> r == Some(ready),
        io is None && deadline_elapsed ==> r == Some(Err::<T, StreamError>(StreamError::TimedOut)),
        io is None && !deadline_elapsed ==> r is None,
{
    match io {
        Some(ready) => Some(ready),
        None => {
            if deadline_elapsed {
                Some(Err(StreamError::TimedOut))
            } else {
                None
            }
        },
    }
}

} // verus!
