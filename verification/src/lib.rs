//! Request validation, query planning and data mapping of the commerce
//! service, with their contracts.
pub mod api;
pub mod auth;
pub mod db;
pub mod ids;
pub mod images;
pub mod model;
pub mod services;
pub mod status;
pub mod subscribers;
pub mod text;

pub use status::{Code, Status};

use vstd::prelude::*;

verus! {

/// Converts a 64-bit integer to 32 bits; one out of range is an internal error.
pub fn i64_to_i32(i: i64) -> (r: Result<i32, Status>)
    ensures
        (i32::MIN <= i <= i32::MAX) ==> r == Ok::<i32, Status>(i as i32),
        !(i32::MIN <= i <= i32::MAX) ==> status::fails_with(r, Code::Internal, ""@),
{
    if i32::MIN as i64 <= i && i <= i32::MAX as i64 {
        Ok(i as i32)
    } else {
        Err(Status::internal(""))
    }
}

} // verus!
