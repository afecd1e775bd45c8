//! A mathematical model of the external ledger.
//!
//! The engine never moves value itself: it consumes an opaque ledger that
//! can debit the caller, credit an account, and report a balance. This
//! module models that collaborator's observable state as a map from
//! account/asset pairs to balances, so that the laws in [`crate::laws`] can
//! say precisely what the value transfers requested by the engine do to
//! every balance — in particular that custody is conserved.

use vstd::prelude::*;

use crate::store::Order;

verus! {

/// One account's holding of one asset: the key of the balance map.
pub ghost struct AccountAsset {
    /// The account holding the balance.
    pub owner: u64,
    /// The asset held.
    pub asset: Seq<u8>,
}

/// A requested value transfer, reduced to what the ledger needs: credit
/// `amount` of `asset` to `to`. This is the mathematical shadow of
/// [`crate::protocol::Credit`].
pub ghost struct CreditModel {
    /// Account to be credited.
    pub to: u64,
    /// Asset to be credited.
    pub asset: Seq<u8>,
    /// Quantity to be credited.
    pub amount: u128,
}

/// The refund owed for an order: its escrowed amount back to its owner.
pub open spec fn refund_of(order: Order) -> CreditModel {
    CreditModel { to: order.owner, asset: order.token_in@, amount: order.amount_in }
}

/// The balance a ledger state assigns to `who` in `asset`; an account/asset
/// pair the map does not mention holds zero.
pub open spec fn balance_in(b: Map<AccountAsset, nat>, who: u64, asset: Seq<u8>) -> nat {
    let k = AccountAsset { owner: who, asset };
    if b.contains_key(k) {
        b[k]
    } else {
        0
    }
}

/// The ledger state after crediting `amount` of `asset` to `who`.
pub open spec fn credited(b: Map<AccountAsset, nat>, who: u64, asset: Seq<u8>, amount: nat) -> Map<
    AccountAsset,
    nat,
> {
    let k = AccountAsset { owner: who, asset };
    b.insert(k, balance_in(b, who, asset) + amount)
}

/// The ledger state after debiting `amount` of `asset` from `who`.
pub open spec fn debited(b: Map<AccountAsset, nat>, who: u64, asset: Seq<u8>, amount: nat) -> Map<
    AccountAsset,
    nat,
>
    recommends
        balance_in(b, who, asset) >= amount,
{
    let k = AccountAsset { owner: who, asset };
    b.insert(k, (balance_in(b, who, asset) - amount) as nat)
}

/// The ledger state after moving `amount` of `asset` from `from` to `to`.
pub open spec fn transferred(
    b: Map<AccountAsset, nat>,
    from: u64,
    to: u64,
    asset: Seq<u8>,
    amount: nat,
) -> Map<AccountAsset, nat>
    recommends
        balance_in(b, from, asset) >= amount,
{
    credited(debited(b, from, asset, amount), to, asset, amount)
}

/// What a single order contributes to the escrow backing `asset`.
pub open spec fn escrow_contrib(order: Order, asset: Seq<u8>) -> nat {
    if order.token_in@ == asset {
        order.amount_in as nat
    } else {
        0
    }
}

/// The escrow total: the sum over all live orders whose input asset is
/// `asset` of their escrowed amounts. Custody conservation says the
/// protocol's own balance of `asset` always equals this sum.
pub open spec fn escrow_of(orders: Seq<Order>, asset: Seq<u8>) -> nat
    decreases orders.len(),
{
    if orders.len() == 0 {
        0
    } else {
        escrow_of(orders.drop_last(), asset) + escrow_contrib(orders.last(), asset)
    }
}

/// What a single credit pays out in `asset`.
pub open spec fn credit_contrib(c: CreditModel, asset: Seq<u8>) -> nat {
    if c.asset == asset {
        c.amount as nat
    } else {
        0
    }
}

/// The total paid out in `asset` by a batch of credits.
pub open spec fn credited_total(credits: Seq<CreditModel>, asset: Seq<u8>) -> nat
    decreases credits.len(),
{
    if credits.len() == 0 {
        0
    } else {
        credited_total(credits.drop_last(), asset) + credit_contrib(credits.last(), asset)
    }
}

} // verus!
