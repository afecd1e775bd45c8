//! The execution protocol: open, cancel, execute, settle, clear.
//!
//! Each entry point is a pure transition: it validates its inputs, updates
//! the order store, and hands the host the value transfers it must perform
//! ([`Credit`]) or the venue call it must dispatch ([`SwapRequest`]). The
//! host is trusted only to apply exactly what it is handed:
//!
//! * opening an order is the escrow deposit — the attached transfer has
//!   already moved `amount_in` of `token_in` into custody when the engine
//!   is called;
//! * cancelling refunds the deposit and removes the record;
//! * executing dispatches an asynchronous swap of the escrowed funds and
//!   leaves the record in place until the venue's result arrives;
//! * the settlement callback splits the proceeds between the order owner
//!   and the treasury and removes the record, or — on venue failure —
//!   reports a fatal error and changes nothing, relying on the venue to
//!   revert its side of the attached transfer.
//!
//! A dispatched execution suspends the order's lifecycle across the round
//! trip to the venue; other entry points may run in between. The callback
//! therefore settles from its captured arguments (`index`, `owner`), not
//! from a fresh read of the store — but its final removal is positional,
//! so interleaved removals that compact the store can still make it evict
//! an unrelated order. That weakness is inherent to positional indexing
//! and documented here rather than hidden.

use vstd::arithmetic::div_mod::lemma_div_nonincreasing;
use vstd::prelude::*;

use crate::errors::OrderError;
use crate::ledger::{refund_of, CreditModel};
use crate::store::{swap_removed, Order, OrderStore};
use crate::token::{bytes_eq, copy_bytes, is_valid_asset_id, valid_asset_id};

verus! {

/// Divisor of the protocol fee taken from swap proceeds: the treasury
/// receives `amount / EXECUTION_FEE`, the order owner the rest.
pub const EXECUTION_FEE: u32 = 1000;

/// A value transfer the host must apply to its ledger: credit `amount` of
/// `token` to account `to`.
#[derive(Debug)]
pub struct Credit {
    /// Account to be credited.
    pub to: u64,
    /// Asset to be credited.
    pub token: Vec<u8>,
    /// Quantity to be credited.
    pub amount: u128,
}

impl View for Credit {
    type V = CreditModel;

    open spec fn view(&self) -> CreditModel {
        CreditModel { to: self.to, asset: self.token@, amount: self.amount }
    }
}

/// An asynchronous venue call the host must dispatch: swap `amount_in` of
/// `token_in` (attached as the outbound transfer) for at least
/// `min_amount_out` of `token_out`, then deliver the venue's result to
/// [`OrderBookContract::my_endpoint_callback`] with the captured `index`
/// and `owner`.
#[derive(Debug)]
pub struct SwapRequest {
    /// Position of the order being executed, captured for the callback.
    pub index: usize,
    /// Owner of the order, captured for the callback.
    pub owner: u64,
    /// The swap venue to call.
    pub venue: u64,
    /// Asset handed to the venue.
    pub token_in: Vec<u8>,
    /// Quantity handed to the venue.
    pub amount_in: u128,
    /// Asset requested from the venue.
    pub token_out: Vec<u8>,
    /// Least acceptable output quantity.
    pub min_amount_out: u128,
}

/// The single fungible payment a resolved venue call carries.
#[derive(Debug)]
pub struct SwapPayment {
    /// Asset paid out by the venue.
    pub token: Vec<u8>,
    /// Nonce of the paid asset; zero for fungible assets.
    pub nonce: u64,
    /// Quantity paid out by the venue.
    pub amount: u128,
}

/// How a dispatched venue call resolved.
#[derive(Debug)]
pub enum SwapResult {
    /// The venue filled the order and paid out `SwapPayment`.
    Success(SwapPayment),
    /// The venue reported failure and reverted the attached transfer.
    Failure,
}

/// The two transfers that settle a successfully executed order.
#[derive(Debug)]
pub struct Settlement {
    /// The protocol fee, owed to the treasury.
    pub fee: Credit,
    /// The remaining proceeds, owed to the order owner.
    pub payout: Credit,
}

/// The mathematical state of the engine: the live orders and the next
/// stable order identifier.
pub ghost struct BookView {
    /// Live orders, positionally indexed.
    pub orders: Seq<Order>,
    /// Identifier the next opened order will receive.
    pub next_id: u64,
}

/// The stable-identifier invariant: every live order's identifier was
/// drawn from the monotonic counter, so each is below `next_id` and no two
/// live orders share one. A fresh engine satisfies it vacuously, and the
/// laws in [`crate::laws`] show that every transition the entry points'
/// contracts describe preserves it — identifiers, unlike positions, never
/// collide and are never reused.
pub open spec fn ids_unique(orders: Seq<Order>, next_id: u64) -> bool {
    &&& forall|k: int| 0 <= k < orders.len() ==> (#[trigger] orders[k].id) < next_id
    &&& forall|k: int, l: int|
        #![trigger orders[k].id, orders[l].id]
        0 <= k < l < orders.len() ==> orders[k].id != orders[l].id
}

/// Which validation error, if any, an `open_order` call with these inputs
/// is refused with; the checks run in this order.
pub open spec fn open_order_error(
    token_out: Seq<u8>,
    limit: u128,
    token_in: Seq<u8>,
    amount_in: u128,
) -> Option<OrderError> {
    if !valid_asset_id(token_out) {
        Some(OrderError::InvalidTokenOut)
    } else if limit == 0 {
        Some(OrderError::ZeroLimit)
    } else if !valid_asset_id(token_in) {
        Some(OrderError::InvalidTokenIn)
    } else if amount_in == 0 {
        Some(OrderError::ZeroAmountIn)
    } else if token_in == token_out {
        Some(OrderError::SameToken)
    } else {
        None
    }
}

/// The limit-order escrow-and-settlement engine.
pub struct OrderBookContract {
    store: OrderStore,
    next_id: u64,
}

impl View for OrderBookContract {
    type V = BookView;

    closed spec fn view(&self) -> BookView {
        BookView { orders: self.store@, next_id: self.next_id }
    }
}

impl OrderBookContract {
    /// A fresh engine: no orders, identifiers starting at zero.
    pub fn init() -> (book: Self)
        ensures
            book@.orders == Seq::<Order>::empty(),
            book@.next_id == 0,
    {
        OrderBookContract { store: OrderStore::new(), next_id: 0 }
    }

    /// Opens an order for the caller.
    ///
    /// `token_in` and `amount_in` are the asset and quantity of the single
    /// fungible transfer attached to the call: by the time the engine runs,
    /// that transfer has already moved the funds into custody, so the act
    /// of calling is the escrow deposit. On success exactly one order is
    /// appended, capturing the caller as owner; on any validation error
    /// nothing changes and the deposit must be reverted with the call.
    pub fn open_order(
        &mut self,
        caller: u64,
        token_out: Vec<u8>,
        limit: u128,
        token_in: Vec<u8>,
        amount_in: u128,
    ) -> (r: Result<(), OrderError>)
        requires
            open_order_error(token_out@, limit, token_in@, amount_in) is None ==> old(self)@.next_id
                < u64::MAX,
        ensures
            r == (match open_order_error(token_out@, limit, token_in@, amount_in) {
                Some(e) => Err::<(), OrderError>(e),
                None => Ok(()),
            }),
            open_order_error(token_out@, limit, token_in@, amount_in) is None ==> {
                &&& final(self)@.orders == old(self)@.orders.push(
                    (Order {
                        id: old(self)@.next_id,
                        owner: caller,
                        token_in,
                        amount_in,
                        token_out,
                        limit,
                    }),
                )
                &&& final(self)@.next_id == old(self)@.next_id + 1
            },
            open_order_error(token_out@, limit, token_in@, amount_in) is Some ==> final(self)@
                == old(self)@,
    {
        if !is_valid_asset_id(&token_out) {
            return Err(OrderError::InvalidTokenOut);
        }
        if limit == 0 {
            return Err(OrderError::ZeroLimit);
        }
        if !is_valid_asset_id(&token_in) {
            return Err(OrderError::InvalidTokenIn);
        }
        if amount_in == 0 {
            return Err(OrderError::ZeroAmountIn);
        }
        if bytes_eq(&token_in, &token_out) {
            return Err(OrderError::SameToken);
        }
        let order = Order {
            id: self.next_id,
            owner: caller,
            token_in,
            amount_in,
            token_out,
            limit,
        };
        self.store.append(order);
        self.next_id = self.next_id + 1;
        Ok(())
    }

    /// Cancels the order at `index`: removes it by swap-with-last and hands
    /// back the refund of its full deposit to its owner. Fails with
    /// `OutOfBounds`, changing nothing, when no live order has that index.
    ///
    /// Any caller may cancel any order: the record keeps its owner only as
    /// the refund recipient, so a stranger's cancellation costs the owner
    /// nothing but the order itself.
    pub fn close_order(&mut self, index: usize) -> (r: Result<Credit, OrderError>)
        ensures
            index < old(self)@.orders.len() ==> {
                &&& r matches Ok(c) && c@ == refund_of(old(self)@.orders[index as int])
                &&& final(self)@.orders == swap_removed(old(self)@.orders, index as int)
                &&& final(self)@.next_id == old(self)@.next_id
            },
            index >= old(self)@.orders.len() ==> r == Err::<Credit, OrderError>(
                OrderError::OutOfBounds,
            ) && final(self)@ == old(self)@,
    {
        match self.store.remove(index) {
            Ok(order) => Ok(
                Credit { to: order.owner, token: order.token_in, amount: order.amount_in },
            ),
            Err(e) => Err(e),
        }
    }

    /// Prepares the execution of the order at `index` on the venue at
    /// `pair_address`, asking for at least `amount_out_min` of the order's
    /// output asset.
    ///
    /// The order record stays in the store for the duration of the pending
    /// call: the callback needs the index to complete settlement, and
    /// removing the record before the venue confirms would break custody
    /// conservation if the call rolls back. The returned request captures
    /// the owner so that settlement never re-reads the possibly compacted
    /// store.
    pub fn execute_order(&self, index: usize, pair_address: u64, amount_out_min: u128) -> (r:
        Result<SwapRequest, OrderError>)
        ensures
            index < self@.orders.len() ==> {
                &&& r matches Ok(req)
                &&& req.index == index
                &&& req.owner == self@.orders[index as int].owner
                &&& req.venue == pair_address
                &&& req.token_in@ == self@.orders[index as int].token_in@
                &&& req.amount_in == self@.orders[index as int].amount_in
                &&& req.token_out@ == self@.orders[index as int].token_out@
                &&& req.min_amount_out == amount_out_min
            },
            index >= self@.orders.len() ==> r == Err::<SwapRequest, OrderError>(
                OrderError::OutOfBounds,
            ),
    {
        match self.store.get(index) {
            Ok(order) => Ok(
                SwapRequest {
                    index,
                    owner: order.owner,
                    venue: pair_address,
                    token_in: copy_bytes(&order.token_in),
                    amount_in: order.amount_in,
                    token_out: copy_bytes(&order.token_out),
                    min_amount_out: amount_out_min,
                },
            ),
            Err(e) => Err(e),
        }
    }

    /// Settles a resolved venue call for the order dispatched at `index`
    /// with the captured `owner`.
    ///
    /// On success the proceeds are split exactly: the treasury is owed
    /// `amount / EXECUTION_FEE` (integer division) and the owner the rest,
    /// so the two credits always sum to the full payment; the order record
    /// is then removed by swap-with-last. On venue failure the call is
    /// fatal and nothing changes: the funds attached to the dispatched swap
    /// are restored by the venue's own revert, which is the one property
    /// this engine must assume of its collaborator.
    pub fn my_endpoint_callback(
        &mut self,
        index: usize,
        owner: u64,
        treasury: u64,
        result: SwapResult,
    ) -> (r: Result<Settlement, OrderError>)
        ensures
            result matches SwapResult::Success(p) ==> {
                &&& index < old(self)@.orders.len() ==> {
                    &&& r matches Ok(s)
                    &&& s.fee.to == treasury
                    &&& s.fee.token@ == p.token@
                    &&& s.fee.amount == p.amount / (EXECUTION_FEE as u128)
                    &&& s.payout.to == owner
                    &&& s.payout.token@ == p.token@
                    &&& s.payout.amount == p.amount - p.amount / (EXECUTION_FEE as u128)
                    &&& s.fee.amount + s.payout.amount == p.amount
                    &&& final(self)@.orders == swap_removed(old(self)@.orders, index as int)
                    &&& final(self)@.next_id == old(self)@.next_id
                }
                &&& index >= old(self)@.orders.len() ==> r == Err::<Settlement, OrderError>(
                    OrderError::OutOfBounds,
                ) && final(self)@ == old(self)@
            },
            result is Failure ==> r == Err::<Settlement, OrderError>(OrderError::SwapFailed)
                && final(self)@ == old(self)@,
    {
        match result {
            SwapResult::Success(payment) => {
                match self.store.remove(index) {
                    Ok(_removed) => {
                        proof {
                            lemma_div_nonincreasing(
                                payment.amount as int,
                                EXECUTION_FEE as int,
                            );
                        }
                        let fee_amount = payment.amount / (EXECUTION_FEE as u128);
                        let payout_amount = payment.amount - fee_amount;
                        let fee_token = copy_bytes(&payment.token);
                        Ok(
                            Settlement {
                                fee: Credit { to: treasury, token: fee_token, amount: fee_amount },
                                payout: Credit {
                                    to: owner,
                                    token: payment.token,
                                    amount: payout_amount,
                                },
                            },
                        )
                    },
                    Err(e) => Err(e),
                }
            },
            SwapResult::Failure => Err(OrderError::SwapFailed),
        }
    }

    /// Clears the store, refund-first: hands back one refund per live
    /// order — its full deposit to its owner, in store order — and then
    /// removes every record.
    ///
    /// This is the custody-preserving variant of an administrative clear: a
    /// bare wipe that skipped the refunds would strand the escrowed funds
    /// backing the cleared orders. The host must apply every returned
    /// credit.
    pub fn clear_storage(&mut self) -> (refunds: Vec<Credit>)
        ensures
            refunds@.len() == old(self)@.orders.len(),
            forall|i: int|
                0 <= i < refunds@.len() ==> refunds@[i]@ == refund_of(old(self)@.orders[i]),
            final(self)@.orders == Seq::<Order>::empty(),
            final(self)@.next_id == old(self)@.next_id,
    {
        let n = self.store.count();
        let mut refunds: Vec<Credit> = Vec::new();
        let mut idx: usize = 0;
        while idx < n
            invariant
                idx <= n,
                n == self@.orders.len(),
                self@ == old(self)@,
                refunds@.len() == idx,
                forall|i: int|
                    0 <= i < idx ==> refunds@[i]@ == refund_of(old(self)@.orders[i]),
            decreases n - idx,
        {
            let order = self.store.order_at(idx);
            let refund = Credit {
                to: order.owner,
                token: copy_bytes(&order.token_in),
                amount: order.amount_in,
            };
            refunds.push(refund);
            idx += 1;
        }
        self.store.clear_all();
        refunds
    }

    /// Prepares the administrative sweep of the protocol's entire balance
    /// of `token` — which the host reads from the ledger and passes as
    /// `balance` — to the treasury.
    ///
    /// This bypasses per-order accounting entirely: the swept balance
    /// includes the escrow backing every live order whose input asset is
    /// `token`, so a sweep while such orders are open breaks custody
    /// conservation and leaves their later refunds or executions unfunded.
    /// It is an owner-gated recovery tool, not a safe general-purpose
    /// operation.
    pub fn claim_tokens(&self, treasury: u64, token: Vec<u8>, balance: u128) -> (c: Credit)
        ensures
            c@ == (CreditModel { to: treasury, asset: token@, amount: balance }),
    {
        Credit { to: treasury, token, amount: balance }
    }

    /// Current number of live orders.
    pub fn get_orders_count(&self) -> (n: usize)
        ensures
            n == self@.orders.len(),
    {
        self.store.count()
    }

    /// The order at `index`, or `OutOfBounds` when no live order has that
    /// index.
    pub fn get_order(&self, index: usize) -> (r: Result<&Order, OrderError>)
        ensures
            index < self@.orders.len() ==> (r matches Ok(order) && *order == self@.orders[index as int]),
            index >= self@.orders.len() ==> r == Err::<&Order, OrderError>(OrderError::OutOfBounds),
    {
        self.store.get(index)
    }

    /// The identifier the next opened order will receive.
    pub fn get_next_id(&self) -> (id: u64)
        ensures
            id == self@.next_id,
    {
        self.next_id
    }
}

} // verus!
