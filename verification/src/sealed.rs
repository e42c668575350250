//! Keeps the types of components to those that this crate has.
use vstd::prelude::*;

verus! {

/// Has no implementation outside of this crate.
pub trait Sealed {

}

} // verus!
