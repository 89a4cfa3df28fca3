//! The operations that the service offers, one function each, and the paths
//! under which they are reached.

use crate::utils::{failure, ErrorResponse, Status};
use vstd::prelude::*;

pub mod poll;
pub mod vote;
pub mod voter;
pub mod voting;

verus! {

/// The answer to a request that arrived without a usable credential.
pub fn unauthorized() -> (error: ErrorResponse)
    ensures
        error@ == failure(Status::Unauthenticated, "Could not authenticate user"@),
{
    ErrorResponse::new(Status::Unauthenticated, "Could not authenticate user")
}

} // verus!
