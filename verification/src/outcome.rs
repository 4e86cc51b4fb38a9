//! From what the backend answered to the result of an operation.
//!
//! Existence and ownership failures are all read off an empty answer: an
//! operation never tells a missing row from one that belongs to another
//! account.

use vstd::prelude::*;
use crate::error::{backend_error_description, BackendError, Error, ErrorView};

verus! {

/// `r` is the failure whose value is `e`.
pub open spec fn fails_with<T>(r: Result<T, Error>, e: ErrorView) -> bool {
    r matches Err(x) && x@ == e
}

/// Passes an answer through and turns a backend failure into `Unexpected`
/// with its diagnostic line.
pub fn or_unexpected<R>(reply: Result<R, BackendError>) -> (r: Result<R, Error>)
    requires
        !(reply matches Err(e) && e is Conversion),
    ensures
        match reply {
            Ok(answer) => r == Ok::<R, Error>(answer),
            Err(e) => fails_with(r, ErrorView::Unexpected(e@.description())),
        },
{
    match reply {
        Ok(answer) => Ok(answer),
        Err(e) => Err(Error::Unexpected(backend_error_description(&e))),
    }
}

/// The first row of an answer, or `missing` where the answer is empty.
pub fn first_or<T>(rows: Vec<T>, missing: Error) -> (r: Result<T, Error>)
    ensures
        rows@.len() > 0 ==> r == Ok::<T, Error>(rows@[0]),
        rows@.len() == 0 ==> r == Err::<T, Error>(missing),
{
    let mut rows = rows;
    if rows.len() > 0 {
        Ok(rows.swap_remove(0))
    } else {
        Err(missing)
    }
}

/// Success where a statement touched at least one row, `missing` where it
/// touched none.
pub fn require_row(count: usize, missing: Error) -> (r: Result<(), Error>)
    ensures
        count > 0 ==> r == Ok::<(), Error>(()),
        count == 0 ==> r == Err::<(), Error>(missing),
{
    if count > 0 {
        Ok(())
    } else {
        Err(missing)
    }
}

/// The first row of what the backend answered; `missing` where it answered
/// with no row; `Unexpected` where it failed.
pub fn first_row<T>(reply: Result<Vec<T>, BackendError>, missing: Error) -> (r: Result<T, Error>)
    requires
        !(reply matches Err(e) && e is Conversion),
    ensures
        match reply {
            Ok(rows) => if rows@.len() > 0 {
                r == Ok::<T, Error>(rows@[0])
            } else {
                r == Err::<T, Error>(missing)
            },
            Err(e) => fails_with(r, ErrorView::Unexpected(e@.description())),
        },
{
    match or_unexpected(reply) {
        Ok(rows) => first_or(rows, missing),
        Err(e) => Err(e),
    }
}

/// Success where the backend touched at least one row; `missing` where it
/// touched none; `Unexpected` where it failed.
pub fn touched_row(reply: Result<usize, BackendError>, missing: Error) -> (r: Result<(), Error>)
    requires
        !(reply matches Err(e) && e is Conversion),
    ensures
        match reply {
            Ok(count) => if count > 0 {
                r == Ok::<(), Error>(())
            } else {
                r == Err::<(), Error>(missing)
            },
            Err(e) => fails_with(r, ErrorView::Unexpected(e@.description())),
        },
{
    match or_unexpected(reply) {
        Ok(count) => require_row(count, missing),
        Err(e) => Err(e),
    }
}

} // verus!
