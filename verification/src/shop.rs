//! A named shop inside a shop block.

use vstd::prelude::*;

verus! {

#[derive(Debug, Clone, PartialEq, Eq)]
pub struct Shop {
    pub name: String,
}

impl Shop {
    pub fn new(name: String) -> (r: Shop)
        ensures
            r.name == name,
    {
        Shop { name }
    }
}

} // verus!
