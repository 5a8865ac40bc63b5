//! Stock on hand: a mapping from product id to available quantity.
//!
//! Quantities are unsigned, so stock can never go negative; a removal that
//! would underflow is rejected whole, with no partial decrement.

use std::collections::HashMap;
use vstd::prelude::*;

verus! {

broadcast use vstd::std_specs::hash::group_hash_axioms;

pub struct Inventory {
    stock: HashMap<u32, u32>,
}

impl View for Inventory {
    type V = Map<u32, u32>;

    closed spec fn view(&self) -> Map<u32, u32> {
        self.stock@
    }
}

impl Inventory {
    /// The quantity on hand for `product_id`; an id never stocked is
    /// indistinguishable from one stocked and fully depleted.
    pub open spec fn spec_stock(self, product_id: u32) -> u32 {
        if self@.contains_key(product_id) {
            self@[product_id]
        } else {
            0
        }
    }

    /// Adding `a` to `b` without leaving the quantity's range.
    pub open spec fn sat_add(a: u32, b: u32) -> u32 {
        if a + b > u32::MAX {
            u32::MAX
        } else {
            (a + b) as u32
        }
    }

    pub fn new() -> (r: Inventory)
        ensures
            r@ == Map::<u32, u32>::empty(),
            forall|pid: u32| r.spec_stock(pid) == 0,
    {
        Inventory { stock: HashMap::new() }
    }

    /// Increments the stock for `product_id`, creating the entry first if
    /// absent. Always succeeds; a sum beyond the quantity's range saturates.
    pub fn add_stock(&mut self, product_id: u32, quantity: u32)
        ensures
            final(self)@ == old(self)@.insert(
                product_id,
                Self::sat_add(old(self).spec_stock(product_id), quantity),
            ),
            final(self).spec_stock(product_id) == Self::sat_add(
                old(self).spec_stock(product_id),
                quantity,
            ),
            forall|pid: u32|
                pid != product_id ==> final(self).spec_stock(pid) == old(self).spec_stock(pid),
    {
        let current: u32 = match self.stock.get(&product_id) {
            Some(q) => *q,
            None => 0,
        };
        let updated: u32 = if quantity > u32::MAX - current {
            u32::MAX
        } else {
            current + quantity
        };
        self.stock.insert(product_id, updated);
    }

    /// Decrements the stock for `product_id` by `quantity` and returns true
    /// exactly when the quantity on hand covers the request; otherwise
    /// returns false and leaves the stock unchanged.
    pub fn remove_stock(&mut self, product_id: u32, quantity: u32) -> (r: bool)
        ensures
            r == (quantity <= old(self).spec_stock(product_id)),
            r ==> final(self)@ == old(self)@.insert(
                product_id,
                (old(self).spec_stock(product_id) - quantity) as u32,
            ),
            r ==> final(self).spec_stock(product_id) == old(self).spec_stock(product_id)
                - quantity,
            !r ==> final(self)@ == old(self)@,
            forall|pid: u32|
                pid != product_id ==> final(self).spec_stock(pid) == old(self).spec_stock(pid),
    {
        let current: u32 = match self.stock.get(&product_id) {
            Some(q) => *q,
            None => 0,
        };
        if quantity <= current {
            self.stock.insert(product_id, current - quantity);
            true
        } else {
            false
        }
    }

    /// The quantity on hand for `product_id`; 0 for an id never stocked.
    pub fn check_stock(&self, product_id: u32) -> (r: u32)
        ensures
            r == self.spec_stock(product_id),
    {
        match self.stock.get(&product_id) {
            Some(q) => *q,
            None => 0,
        }
    }
}

/// An id with no entry in the inventory — one never stocked — has a
/// quantity on hand of zero.
pub proof fn lemma_unstocked_is_zero(inv: Inventory, product_id: u32)
    requires
        !inv@.contains_key(product_id),
    ensures
        inv.spec_stock(product_id) == 0,
{
}

} // verus!
