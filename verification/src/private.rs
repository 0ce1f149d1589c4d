use vstd::prelude::*;

verus! {

/// A marker that keeps the traits built on it closed to types outside of this crate.
pub trait Sealed {

}

impl Sealed for () {

}

} // verus!
