//! The decisions of the shop domain service.
use vstd::prelude::*;

use crate::status::{fails_with, Code, Status};

verus! {

/// What adding a domain to a shop does.
#[derive(Clone, Copy, Debug, PartialEq, Eq, Structural)]
pub enum AddDomain {
    /// The shop has this domain already: nothing to do.
    AlreadyAdded,
    /// The shop has no domain: the domain is created.
    Create,
}

/// Shop domains.
pub struct ShopDomainService {}

impl ShopDomainService {
    /// Adds `domain` to a shop whose domain is `found_domain`: a shop has one
    /// domain, so another one already there is refused and names it.
    pub fn decide_add_domain(found_domain: Option<&String>, domain: &String) -> (r: Result<
        AddDomain,
        Status,
    >)
        ensures
            found_domain is None ==> r == Ok::<AddDomain, Status>(AddDomain::Create),
            found_domain matches Some(d) ==> (d@ == domain@ ==> r == Ok::<AddDomain, Status>(
                AddDomain::AlreadyAdded,
            )),
            found_domain matches Some(d) ==> (d@ != domain@ ==> fails_with(
                r,
                Code::AlreadyExists,
                d@,
            )),
    {
        match found_domain {
            Some(d) => {
                if *d == *domain {
                    Ok(AddDomain::AlreadyAdded)
                } else {
                    Err(Status::with_message(Code::AlreadyExists, d.clone()))
                }
            },
            None => Ok(AddDomain::Create),
        }
    }
}

} // verus!
