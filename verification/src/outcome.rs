//! Results of non-blocking calls, sorted into what an operation does next.

use vstd::prelude::*;

verus! {

/// The error type of the standard library's I/O calls, carried through unread.
#[verifier::external_type_specification]
#[verifier::external_body]
pub struct ExIoError(std::io::Error);

/// Whether an I/O error says that the call could not finish without blocking.
pub uninterp spec fn would_block(err: std::io::Error) -> bool;

/// Calls `std::io::Error::kind` and compares the kind with
/// `std::io::ErrorKind::WouldBlock`. The answer depends on the error alone.
#[verifier::external_body]
pub(crate) fn is_would_block(err: &std::io::Error) -> (b: bool)
    ensures
        b == would_block(*err),
{
    err.kind() == std::io::ErrorKind::WouldBlock
}

/// What one non-blocking call on the transport came to.
#[derive(Debug)]
pub enum Attempt<T> {
    /// The call went through.
    Completed(T),
    /// The call could not finish without blocking; nothing was transferred.
    WouldBlock,
    /// The call failed for good.
    Failed(std::io::Error),
}

/// The outcome that a call's result stands for.
pub open spec fn attempt_of<T>(res: Result<T, std::io::Error>) -> Attempt<T> {
    match res {
        Ok(value) => Attempt::Completed(value),
        Err(err) => if would_block(err) {
            Attempt::WouldBlock
        } else {
            Attempt::Failed(err)
        },
    }
}

/// Sorts the result of a non-blocking call.
pub fn classify<T>(res: Result<T, std::io::Error>) -> (out: Attempt<T>)
    ensures
        out == attempt_of(res),
{
    match res {
        Ok(value) => Attempt::Completed(value),
        Err(err) => {
            if is_would_block(&err) {
                Attempt::WouldBlock
            } else {
                Attempt::Failed(err)
            }
        },
    }
}

} // verus!
