use vstd::prelude::*;

verus! {

/// Closes the sets of server editions and client phases to this crate.
pub trait Sealed {}

} // verus!
