//! Two designs for reading strongly typed attributes of entities, where the
//! attribute's type selects both the accessor and the type of its value.
use vstd::prelude::*;

pub mod take_1;
pub mod take_2;

verus! {

} // verus!
