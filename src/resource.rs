//! One resource per kind of record, at the path of its snake-case name: what
//! each request answers, given what the store did.

use vstd::prelude::*;
use crate::table::{snake_of, TableType};

verus! {

/// The status of a response.
#[derive(Clone, Copy, Debug, PartialEq, Eq, Structural)]
pub enum Status {
    Success,
    InternalServerError,
}

impl Status {
    pub fn code(&self) -> (r: u16)
        ensures
            *self is Success ==> r == 200,
            *self is InternalServerError ==> r == 500,
    {
        match self {
            Status::Success => 200,
            Status::InternalServerError => 500,
        }
    }
}

/// The answer to a creation or a deletion, given how many rows the store
/// changed or that it failed. A deletion that matched no row changed zero
/// rows and succeeds.
pub fn write_status<E>(outcome: &Result<usize, E>) -> (r: Status)
    ensures
        outcome is Ok ==> r == Status::Success,
        outcome is Err ==> r == Status::InternalServerError,
{
    match outcome {
        Ok(_) => Status::Success,
        Err(_) => Status::InternalServerError,
    }
}

/// The records that a listing answers with: all that were read, or none
/// when reading failed.
pub fn listed<T, E>(outcome: Result<Vec<T>, E>) -> (r: Vec<T>)
    ensures
        outcome matches Ok(v) ==> r@ == v@,
        outcome is Err ==> r@.len() == 0,
{
    match outcome {
        Ok(v) => v,
        Err(_) => Vec::new(),
    }
}

/// The address of the resource of `table` under the server address `base`.
pub fn endpoint(base: &str, table: TableType) -> (r: String)
    ensures
        r@ == base@ + "/"@ + snake_of(table.name_spec()),
{
    let mut r = base.to_string();
    r.append("/");
    let name = table.snake_case();
    r.append(name.as_str());
    r
}

} // verus!
