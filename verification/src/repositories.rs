use vstd::prelude::*;
use vstd::string::StringExecFns;

use crate::models::error::DatabaseError;

verus! {

/// The id that the store gave an inserted row, or, where the row it returned
/// carries none, the store's `RowNotFound` error (its debug text).
pub fn inserted_id(returned_id: Option<i32>) -> (r: Result<i32, DatabaseError>)
    ensures
        match returned_id {
            Some(id) => r == Ok::<i32, DatabaseError>(id),
            None => r matches Err(e) && e.detail@ == "RowNotFound"@,
        },
{
    match returned_id {
        Some(id) => Ok(id),
        None => Err(DatabaseError { detail: String::from_str("RowNotFound") }),
    }
}

} // verus!
