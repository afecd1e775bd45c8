//! The order store: an append-ordered, positionally indexed collection of
//! [`Order`] records with O(1) swap-with-last removal.
//!
//! Removal copies the last element into the removed slot and shortens the
//! store, so positional indices are not stable across removals: after any
//! removal, relative order is no longer insertion order. This is an accepted
//! trade-off for O(1) removal over a small, operator-curated order set.

use vstd::prelude::*;

use crate::errors::OrderError;

verus! {

/// A commitment of escrowed input funds to be exchanged for a minimum
/// output amount, owned by the account that created it.
///
/// An order is immutable once opened: it is only ever created, read, and
/// removed, never mutated in place. `amount_in` of `token_in` is held in
/// the protocol's custody account for as long as the order is live.
#[derive(Debug)]
pub struct Order {
    /// Stable identifier assigned at creation from a monotonic counter.
    pub id: u64,
    /// Account that may cancel the order and that receives the proceeds.
    pub owner: u64,
    /// Escrowed asset.
    pub token_in: Vec<u8>,
    /// Escrowed quantity, fixed at open time.
    pub amount_in: u128,
    /// Desired output asset.
    pub token_out: Vec<u8>,
    /// Minimum acceptable output amount.
    pub limit: u128,
}

/// The sequence that remains after a swap-with-last removal at `i`: the
/// last element is copied into slot `i` and the length shrinks by one.
pub open spec fn swap_removed<T>(s: Seq<T>, i: int) -> Seq<T> {
    s.update(i, s.last()).drop_last()
}

/// The positionally indexed collection of live orders.
pub struct OrderStore {
    orders: Vec<Order>,
}

impl View for OrderStore {
    type V = Seq<Order>;

    closed spec fn view(&self) -> Seq<Order> {
        self.orders@
    }
}

impl OrderStore {
    /// An empty store.
    pub fn new() -> (s: Self)
        ensures
            s@ == Seq::<Order>::empty(),
    {
        OrderStore { orders: Vec::new() }
    }

    /// Current number of live orders.
    pub fn count(&self) -> (n: usize)
        ensures
            n == self@.len(),
    {
        self.orders.len()
    }

    /// Inserts `order` at the end and returns its index. Always succeeds.
    pub fn append(&mut self, order: Order) -> (index: usize)
        ensures
            final(self)@ == old(self)@.push(order),
            index == old(self)@.len(),
    {
        let index = self.orders.len();
        self.orders.push(order);
        index
    }

    /// The order at `index`, or `OutOfBounds` when no live order has that
    /// index.
    pub fn get(&self, index: usize) -> (r: Result<&Order, OrderError>)
        ensures
            index < self@.len() ==> (r matches Ok(order) && *order == self@[index as int]),
            index >= self@.len() ==> r == Err::<&Order, OrderError>(OrderError::OutOfBounds),
    {
        if index < self.orders.len() {
            Ok(&self.orders[index])
        } else {
            Err(OrderError::OutOfBounds)
        }
    }

    /// The order at `index`, which the caller has shown to be live.
    pub fn order_at(&self, index: usize) -> (order: &Order)
        requires
            index < self@.len(),
        ensures
            *order == self@[index as int],
    {
        &self.orders[index]
    }

    /// Removes and returns the order at `index` by swap-with-last: the last
    /// element moves into slot `index` and the store shrinks by one. Fails
    /// with `OutOfBounds`, changing nothing, when `index >= count`.
    pub fn remove(&mut self, index: usize) -> (r: Result<Order, OrderError>)
        ensures
            index < old(self)@.len() ==> (r matches Ok(order) && order == old(self)@[index as int]
                && final(self)@ == swap_removed(old(self)@, index as int)),
            index >= old(self)@.len() ==> r == Err::<Order, OrderError>(OrderError::OutOfBounds)
                && final(self)@ == old(self)@,
    {
        if index < self.orders.len() {
            Ok(self.orders.swap_remove(index))
        } else {
            Err(OrderError::OutOfBounds)
        }
    }

    /// Removes every order unconditionally.
    ///
    /// This is a bare storage wipe: it refunds nothing by itself, so a
    /// caller that does not first issue a refund per live order strands the
    /// escrowed funds backing them.
    pub fn clear_all(&mut self)
        ensures
            final(self)@ == Seq::<Order>::empty(),
    {
        self.orders.clear();
    }
}

} // verus!
