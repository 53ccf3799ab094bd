use vstd::prelude::*;

verus! {

/// Seals the capability traits: it is unreachable from outside this crate,
/// so only the crate's own types implement them.
pub trait Sealed {
}

} // verus!
