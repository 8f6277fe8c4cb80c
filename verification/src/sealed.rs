//! Keeps the property and core traits from being implemented elsewhere.

use vstd::prelude::*;

verus! {

/// Only types of this crate's choosing have it.
pub trait Sealed {

}

} // verus!
