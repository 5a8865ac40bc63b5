//! An order: a user, an ordered list of line items, a status state machine
//! and a running total in minor units, maintained incrementally and proved
//! equal to the sum of price × quantity over the line items.

use crate::numfmt::cents_to_string;
use crate::numfmt::dec_str;
use crate::numfmt::money_str;
use crate::numfmt::u64_to_string;
use crate::product::Product;
use crate::user::User;
use vstd::arithmetic::mul::lemma_mul_nonnegative;
use vstd::prelude::*;

verus! {

#[derive(Debug, Clone, Copy, PartialEq, Eq, Structural)]
pub enum OrderStatus {
    Pending,
    Processing,
    Shipped,
    Delivered,
    Cancelled,
}

#[derive(Debug, PartialEq, Eq, Structural)]
pub enum OrderError {
    InvalidQuantity,
    ProductNotFound,
    InvalidStatus,
    EmptyOrder,
}

/// Delivered and Cancelled are terminal: no transition leaves either.
pub open spec fn is_terminal(s: OrderStatus) -> bool {
    s == OrderStatus::Delivered || s == OrderStatus::Cancelled
}

/// The display label of each status.
pub open spec fn status_label(s: OrderStatus) -> Seq<char> {
    match s {
        OrderStatus::Pending => "Pending"@,
        OrderStatus::Processing => "Processing"@,
        OrderStatus::Shipped => "Shipped"@,
        OrderStatus::Delivered => "Delivered"@,
        OrderStatus::Cancelled => "Cancelled"@,
    }
}

/// The message text for each order error.
pub open spec fn order_error_text(e: OrderError) -> Seq<char> {
    match e {
        OrderError::InvalidQuantity => "Invalid quantity specified"@,
        OrderError::ProductNotFound => "Product not found in order"@,
        OrderError::InvalidStatus => "Invalid status transition"@,
        OrderError::EmptyOrder => "Cannot process empty order"@,
    }
}

impl OrderStatus {
    /// The display label of this status.
    pub fn label(&self) -> (r: &'static str)
        ensures
            r@ == status_label(*self),
    {
        match self {
            OrderStatus::Pending => "Pending",
            OrderStatus::Processing => "Processing",
            OrderStatus::Shipped => "Shipped",
            OrderStatus::Delivered => "Delivered",
            OrderStatus::Cancelled => "Cancelled",
        }
    }
}

impl OrderError {
    /// A human-readable description of the error.
    pub fn message(&self) -> (r: &'static str)
        ensures
            r@ == order_error_text(*self),
    {
        match self {
            OrderError::InvalidQuantity => "Invalid quantity specified",
            OrderError::ProductNotFound => "Product not found in order",
            OrderError::InvalidStatus => "Invalid status transition",
            OrderError::EmptyOrder => "Cannot process empty order",
        }
    }
}

/// The sum of price × quantity over the line items of `s`.
pub open spec fn line_sum(s: Seq<(Product, u32)>) -> int
    decreases s.len(),
{
    if s.len() == 0 {
        0
    } else {
        line_sum(s.drop_last()) + s.last().0.price * s.last().1
    }
}

/// Whether some line item of `s` carries the product id.
pub open spec fn has_product(s: Seq<(Product, u32)>, product_id: u32) -> bool {
    exists|i: int| 0 <= i < s.len() && s[i].0.id == product_id
}

/// The index of the first line item of `s` carrying the product id.
pub open spec fn first_index_of(s: Seq<(Product, u32)>, product_id: u32) -> int
    decreases s.len(),
{
    if s.len() == 0 {
        0
    } else if s[0].0.id == product_id {
        0
    } else {
        1 + first_index_of(s.drop_first(), product_id)
    }
}

proof fn lemma_line_sum_nonneg(s: Seq<(Product, u32)>)
    ensures
        line_sum(s) >= 0,
    decreases s.len(),
{
    if s.len() > 0 {
        lemma_line_sum_nonneg(s.drop_last());
        lemma_mul_nonnegative(s.last().0.price as int, s.last().1 as int);
    }
}

proof fn lemma_line_sum_remove(s: Seq<(Product, u32)>, i: int)
    requires
        0 <= i < s.len(),
    ensures
        line_sum(s.remove(i)) == line_sum(s) - s[i].0.price * s[i].1,
    decreases s.len(),
{
    if i == s.len() - 1 {
        assert(s.remove(i) =~= s.drop_last());
    } else {
        assert(s.remove(i).drop_last() =~= s.drop_last().remove(i));
        assert(s.remove(i).last() == s.last());
        lemma_line_sum_remove(s.drop_last(), i);
    }
}

proof fn lemma_line_sum_term_bound(s: Seq<(Product, u32)>, i: int)
    requires
        0 <= i < s.len(),
    ensures
        0 <= s[i].0.price * s[i].1,
        s[i].0.price * s[i].1 <= line_sum(s),
{
    lemma_line_sum_remove(s, i);
    lemma_line_sum_nonneg(s.remove(i));
    lemma_mul_nonnegative(s[i].0.price as int, s[i].1 as int);
}

proof fn lemma_first_index(s: Seq<(Product, u32)>, product_id: u32, i: int)
    requires
        0 <= i < s.len(),
        s[i].0.id == product_id,
        forall|j: int| 0 <= j < i ==> s[j].0.id != product_id,
    ensures
        first_index_of(s, product_id) == i,
    decreases i,
{
    if i > 0 {
        assert(s[0].0.id != product_id);
        assert(s.drop_first()[i - 1].0.id == product_id);
        assert(forall|j: int| 0 <= j < i - 1 ==> s.drop_first()[j].0.id != product_id);
        lemma_first_index(s.drop_first(), product_id, i - 1);
    }
}

#[derive(Debug)]
pub struct Order {
    pub id: u32,
    pub user: User,
    pub products: Vec<(Product, u32)>,
    pub status: OrderStatus,
    pub total: u64,
}

impl Order {
    /// The running total equals the sum of price × quantity over the line
    /// items. The constructor establishes it and every operation preserves
    /// it.
    pub open spec fn wf(self) -> bool {
        self.total as int == line_sum(self.products@)
    }

    /// The one-line rendering of this order.
    pub open spec fn summary_line(self) -> Seq<char> {
        "Order #"@ + dec_str(self.id as nat) + " - "@ + status_label(self.status) + " - "@
            + dec_str(self.products@.len() as nat) + " items - Total: $"@ + money_str(
            self.total as nat,
        )
    }

    /// A fresh order for `user`: no line items, Pending, zero total.
    pub fn new(id: u32, user: User) -> (r: Order)
        ensures
            r.id == id,
            r.user == user,
            r.products@ == Seq::<(Product, u32)>::empty(),
            r.status == OrderStatus::Pending,
            r.total == 0,
            r.wf(),
    {
        Order { id, user, products: Vec::new(), status: OrderStatus::Pending, total: 0 }
    }

    /// Appends a line item and raises the total by price × quantity; a
    /// quantity of zero is rejected and leaves the order unchanged. Stock
    /// sufficiency is the caller's concern, checked against the inventory
    /// before a status transition is committed.
    pub fn add_product(&mut self, product: Product, quantity: u32) -> (r: Result<(), OrderError>)
        requires
            old(self).wf(),
            line_sum(old(self).products@) + product.price * quantity <= u64::MAX,
        ensures
            r is Ok <==> quantity != 0,
            r is Err ==> r == Result::<(), OrderError>::Err(OrderError::InvalidQuantity)
                && *final(self) == *old(self),
            r is Ok ==> final(self).products@ == old(self).products@.push((product, quantity))
                && final(self).total == old(self).total + product.price * quantity
                && final(self).id == old(self).id
                && final(self).user == old(self).user
                && final(self).status == old(self).status,
            final(self).wf(),
    {
        if quantity == 0 {
            return Err(OrderError::InvalidQuantity);
        }
        proof {
            lemma_line_sum_nonneg(self.products@);
            lemma_mul_nonnegative(product.price as int, quantity as int);
        }
        let amount: u64 = product.price * (quantity as u64);
        self.total = self.total + amount;
        self.products.push((product, quantity));
        proof {
            assert(self.products@.drop_last() =~= old(self).products@);
        }
        Ok(())
    }

    /// Removes the first line item carrying `product_id` and lowers the
    /// total by that line's price × quantity; an id on no line is rejected
    /// and leaves the order unchanged.
    pub fn remove_product(&mut self, product_id: u32) -> (r: Result<(), OrderError>)
        requires
            old(self).wf(),
        ensures
            r is Ok <==> has_product(old(self).products@, product_id),
            r is Err ==> r == Result::<(), OrderError>::Err(OrderError::ProductNotFound)
                && *final(self) == *old(self),
            r is Ok ==> ({
                let i = first_index_of(old(self).products@, product_id);
                &&& final(self).products@ == old(self).products@.remove(i)
                &&& final(self).total as int == old(self).total - old(self).products@[i].0.price
                    * old(self).products@[i].1
                &&& final(self).id == old(self).id
                &&& final(self).user == old(self).user
                &&& final(self).status == old(self).status
            }),
            final(self).wf(),
    {
        let n: usize = self.products.len();
        let mut i: usize = 0;
        while i < n
            invariant
                i <= n,
                n == self.products@.len(),
                *self == *old(self),
                old(self).wf(),
                forall|j: int| 0 <= j < i ==> self.products@[j].0.id != product_id,
            decreases n - i,
        {
            if self.products[i].0.id == product_id {
                proof {
                    lemma_first_index(self.products@, product_id, i as int);
                    lemma_line_sum_remove(self.products@, i as int);
                    lemma_line_sum_term_bound(self.products@, i as int);
                }
                let price: u64 = self.products[i].0.price;
                let qty: u32 = self.products[i].1;
                let amount: u64 = price * (qty as u64);
                self.total = self.total - amount;
                self.products.remove(i);
                return Ok(());
            }
            i = i + 1;
        }
        Err(OrderError::ProductNotFound)
    }

    /// Moves the order to `status` unless the current status is terminal:
    /// out of Delivered or Cancelled every transition is rejected, out of
    /// any other status every transition is allowed.
    pub fn update_status(&mut self, status: OrderStatus) -> (r: Result<(), OrderError>)
        ensures
            r is Ok <==> !is_terminal(old(self).status),
            r is Err ==> r == Result::<(), OrderError>::Err(OrderError::InvalidStatus)
                && *final(self) == *old(self),
            r is Ok ==> final(self).status == status
                && final(self).id == old(self).id
                && final(self).user == old(self).user
                && final(self).products == old(self).products
                && final(self).total == old(self).total,
            old(self).wf() ==> final(self).wf(),
    {
        match self.status {
            OrderStatus::Cancelled => Err(OrderError::InvalidStatus),
            OrderStatus::Delivered => Err(OrderError::InvalidStatus),
            _ => {
                self.status = status;
                Ok(())
            },
        }
    }

    /// The maintained running total, in minor units; for a well-formed
    /// order it equals the sum of price × quantity over the line items.
    pub fn calculate_total(&self) -> (r: u64)
        ensures
            r == self.total,
            self.wf() ==> r as int == line_sum(self.products@),
    {
        self.total
    }

    /// Whether the order has no line items.
    pub fn is_empty(&self) -> (r: bool)
        ensures
            r == (self.products@.len() == 0),
    {
        self.products.is_empty()
    }

    /// Renders the order as one line of text.
    pub fn get_order_summary(&self) -> (r: String)
        ensures
            r@ == self.summary_line(),
    {
        let mut s: String = String::new();
        s.append("Order #");
        let rendered_id: String = u64_to_string(self.id as u64);
        s.append(rendered_id.as_str());
        s.append(" - ");
        s.append(self.status.label());
        s.append(" - ");
        let rendered_count: String = u64_to_string(self.products.len() as u64);
        s.append(rendered_count.as_str());
        s.append(" items - Total: $");
        let rendered_total: String = cents_to_string(self.total);
        s.append(rendered_total.as_str());
        proof {
            assert(s@ =~= self.summary_line());
        }
        s
    }
}

/// The running total of a well-formed order is exactly the sum of
/// price × quantity over its remaining line items, however the order was
/// built: every operation keeps `wf`, and this reads the total off it.
pub proof fn lemma_total_is_line_sum(o: Order)
    requires
        o.wf(),
    ensures
        o.total as int == line_sum(o.products@),
{
}

} // verus!
