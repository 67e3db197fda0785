//! Read-only views of an agent registry: agent identities with their
//! metadata and service prices, and jobs with their validation requests.
//!
//! Each registry's storage is held as plain values ([`identity::IdentityStorage`],
//! [`validation::ValidationStorage`]), and the views over it are verified
//! against a mathematical model of that storage.

use vstd::prelude::*;

pub mod bytes;
pub mod keyed;
pub mod structs;
pub mod paging;
pub mod identity;
pub mod validation;

verus! {

} // verus!
