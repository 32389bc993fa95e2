//! How what the engine returns becomes a result.
//!
//! The engine reports failure out of band: a call returns a code, and the
//! reason stays behind in the session's last-error slot. The rules here pair
//! the two.

use crate::error::{err, outcome, io_outcome, Error, ErrorView, IoError, IoErrorView};
use vstd::prelude::*;

verus! {

/// The code with which the engine reports success.
pub const SSH_OK: i32 = 0;

/// The result of a call that answers `SSH_OK` or fails.
pub open spec fn status_model(code: i32, error: Seq<char>) -> Result<(), ErrorView> {
    if code == SSH_OK {
        Ok(())
    } else {
        Err(ErrorView::Ssh(error))
    }
}

/// The result of a call that answers a count, or a negative code when it fails.
pub open spec fn count_model(code: i32, error: Seq<char>) -> Result<usize, ErrorView> {
    if code >= 0 {
        Ok(code as usize)
    } else {
        Err(ErrorView::Ssh(error))
    }
}

/// The result of a stream call that answers how many bytes it moved, or a
/// negative code when it fails.
pub open spec fn moved_model(count: i32, error: Seq<char>) -> Result<usize, IoErrorView> {
    if count >= 0 {
        Ok(count as usize)
    } else {
        Err(IoErrorView::Other(error))
    }
}

/// Success for `SSH_OK`; for any other code the protocol error with the
/// engine's text.
pub fn status(code: i32, error: &str) -> (r: Result<(), Error>)
    ensures
        outcome(r) == status_model(code, error@),
{
    if code == SSH_OK {
        Ok(())
    } else {
        Err(err(error))
    }
}

/// The count for a code that is not negative; for a negative one the
/// protocol error with the engine's text.
pub fn count(code: i32, error: &str) -> (r: Result<usize, Error>)
    ensures
        outcome(r) == count_model(code, error@),
{
    if code >= 0 {
        Ok(code as usize)
    } else {
        Err(err(error))
    }
}

/// The number of bytes moved for a count that is not negative; for a
/// negative one the stream error that wraps the engine's text.
pub fn moved(count: i32, error: &str) -> (r: Result<usize, IoError>)
    ensures
        io_outcome(r) == moved_model(count, error@),
{
    if count >= 0 {
        Ok(count as usize)
    } else {
        Err(IoError::other(error))
    }
}

} // verus!
