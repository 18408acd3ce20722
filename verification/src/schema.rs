//! The database's custom types.
use vstd::prelude::*;

verus! {

/// The `role_type` enumeration of the database, which `Role` is stored as.
#[derive(Debug, Clone, Copy)]
pub struct RoleType;

} // verus!
