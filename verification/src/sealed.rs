//! Keeps the marker traits closed.

use vstd::prelude::*;

verus! {

pub trait Sealed {

}

impl<T: Sealed, U: Sealed> Sealed for (T, U) {

}

} // verus!
