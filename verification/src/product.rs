//! A catalog entry: an item for sale, immutable once constructed.

use vstd::prelude::*;

verus! {

/// An item for sale. The price is in minor units (cents), so it is
/// non-negative by construction and arithmetic on it is exact.
#[derive(Debug, Clone)]
pub struct Product {
    pub id: u32,
    pub name: String,
    pub price: u64,
    pub description: String,
}

impl Product {
    pub fn new(id: u32, name: String, price: u64, description: String) -> (r: Product)
        ensures
            r.id == id,
            r.name == name,
            r.price == price,
            r.description == description,
    {
        Product { id, name, description, price }
    }
}

} // verus!
