//! The laws of the engine, proved once and for all.
//!
//! Each lemma here states a property that holds for every input, tying the
//! store transitions that the entry points' contracts pin down to the
//! balance model of [`crate::ledger`]: deposits and refunds conserve
//! custody, settlement conserves the venue's payment, and swap-with-last
//! removal moves exactly the last record.

use vstd::arithmetic::div_mod::lemma_div_nonincreasing;
use vstd::prelude::*;

use crate::ledger::{
    balance_in, credit_contrib, credited_total, escrow_contrib, escrow_of, refund_of,
    transferred, AccountAsset, CreditModel,
};
use crate::protocol::{ids_unique, EXECUTION_FEE};
use crate::store::{swap_removed, Order};

verus! {

/// Replacing the order at `i` changes the escrow total by exactly the
/// difference of the two orders' contributions.
pub proof fn lemma_escrow_update(orders: Seq<Order>, i: int, order: Order, asset: Seq<u8>)
    requires
        0 <= i < orders.len(),
    ensures
        escrow_of(orders.update(i, order), asset) == escrow_of(orders, asset) - escrow_contrib(
            orders[i],
            asset,
        ) + escrow_contrib(order, asset),
    decreases orders.len(),
{
    let upd = orders.update(i, order);
    if i == orders.len() - 1 {
        assert(upd.drop_last() =~= orders.drop_last());
        assert(upd.last() == order);
    } else {
        assert(upd.drop_last() =~= orders.drop_last().update(i, order));
        assert(upd.last() == orders.last());
        lemma_escrow_update(orders.drop_last(), i, order, asset);
        assert(orders.drop_last()[i] == orders[i]);
    }
}

/// Opening an order grows the store by one record and grows the escrow
/// total of every asset by exactly that order's contribution: its full
/// deposit for its own input asset, nothing for any other.
pub proof fn lemma_open_adds_escrow(orders: Seq<Order>, order: Order, asset: Seq<u8>)
    ensures
        orders.push(order).len() == orders.len() + 1,
        escrow_of(orders.push(order), asset) == escrow_of(orders, asset) + escrow_contrib(
            order,
            asset,
        ),
{
    assert(orders.push(order).drop_last() =~= orders);
    assert(orders.push(order).last() == order);
}

/// Removing the order at `i` by swap-with-last shrinks the store by one
/// record and shrinks the escrow total of every asset by exactly that
/// order's contribution.
pub proof fn lemma_remove_subtracts_escrow(orders: Seq<Order>, i: int, asset: Seq<u8>)
    requires
        0 <= i < orders.len(),
    ensures
        swap_removed(orders, i).len() == orders.len() - 1,
        escrow_of(swap_removed(orders, i), asset) == escrow_of(orders, asset) - escrow_contrib(
            orders[i],
            asset,
        ),
{
    let upd = orders.update(i, orders.last());
    lemma_escrow_update(orders, i, orders.last(), asset);
    assert(upd.last() == orders.last());
    assert(escrow_of(upd, asset) == escrow_of(upd.drop_last(), asset) + escrow_contrib(
        upd.last(),
        asset,
    ));
}

/// A transfer moves value and nothing else: the sender's balance of the
/// moved asset falls by the amount, the recipient's rises by it, and every
/// other account/asset balance is untouched.
pub proof fn lemma_transfer_balances(
    b: Map<AccountAsset, nat>,
    from: u64,
    to: u64,
    asset: Seq<u8>,
    amount: nat,
)
    requires
        balance_in(b, from, asset) >= amount,
        from != to,
    ensures
        balance_in(transferred(b, from, to, asset, amount), from, asset) == balance_in(
            b,
            from,
            asset,
        ) - amount,
        balance_in(transferred(b, from, to, asset, amount), to, asset) == balance_in(
            b,
            to,
            asset,
        ) + amount,
        forall|who: u64, a: Seq<u8>|
            (who != from && who != to) || a != asset ==> balance_in(
                transferred(b, from, to, asset, amount),
                who,
                a,
            ) == balance_in(b, who, a),
{
}

/// Round trip: a transfer followed by the exact opposite transfer leaves
/// every balance as it was. Opening an order and immediately closing it,
/// or executing one whose venue call fails and is reverted, are both
/// instances: the net effect on all balances is zero.
pub proof fn lemma_transfer_round_trip(
    b: Map<AccountAsset, nat>,
    from: u64,
    to: u64,
    asset: Seq<u8>,
    amount: nat,
)
    requires
        balance_in(b, from, asset) >= amount,
        from != to,
    ensures
        forall|who: u64, a: Seq<u8>|
            balance_in(
                transferred(transferred(b, from, to, asset, amount), to, from, asset, amount),
                who,
                a,
            ) == balance_in(b, who, a),
{
    let forward = transferred(b, from, to, asset, amount);
    lemma_transfer_balances(b, from, to, asset, amount);
    lemma_transfer_balances(forward, to, from, asset, amount);
}

/// Round trip on the store: closing the order that an open just appended
/// restores the store exactly, and the refund owed for it is exactly the
/// deposit that opened it — same owner, same asset, same amount.
pub proof fn lemma_open_close_round_trip(orders: Seq<Order>, order: Order)
    ensures
        swap_removed(orders.push(order), orders.len() as int) == orders,
        refund_of(order) == (CreditModel {
            to: order.owner,
            asset: order.token_in@,
            amount: order.amount_in,
        }),
{
    assert(swap_removed(orders.push(order), orders.len() as int) =~= orders);
}

/// The settlement split conserves the venue's payment exactly: the fee is
/// the truncating division by the fee divisor, the payout is the rest, and
/// the two always sum back to the full payment — the single truncation
/// favours the owner's side, never leaks value.
pub proof fn lemma_fee_split_exact(amount: u128)
    ensures
        amount / (EXECUTION_FEE as u128) + (amount - amount / (EXECUTION_FEE as u128)) == amount,
        amount / (EXECUTION_FEE as u128) <= amount,
{
    lemma_div_nonincreasing(amount as int, EXECUTION_FEE as int);
}

/// Swap-with-last removal at `i` moves exactly the record that was last
/// into slot `i` (when `i` was not itself the last slot) and leaves every
/// other surviving record where it was.
pub proof fn lemma_swap_remove_moves_last(orders: Seq<Order>, i: int)
    requires
        0 <= i < orders.len(),
    ensures
        swap_removed(orders, i).len() == orders.len() - 1,
        i < orders.len() - 1 ==> swap_removed(orders, i)[i] == orders.last(),
        forall|j: int|
            0 <= j < orders.len() - 1 && j != i ==> swap_removed(orders, i)[j] == orders[j],
{
}

/// Opening preserves the stable-identifier invariant: the new record
/// takes the counter's current value, which no live order holds, and the
/// counter moves past it, never to hand it out again.
pub proof fn lemma_open_preserves_ids(orders: Seq<Order>, order: Order, next_id: u64)
    requires
        ids_unique(orders, next_id),
        order.id == next_id,
        next_id < u64::MAX,
    ensures
        ids_unique(orders.push(order), (next_id + 1) as u64),
{
    let grown = orders.push(order);
    assert forall|k: int| 0 <= k < grown.len() implies (#[trigger] grown[k].id) < next_id
        + 1 by {
        if k < orders.len() {
            assert(grown[k] == orders[k]);
        }
    }
    assert forall|k: int, l: int|
        #![trigger grown[k].id, grown[l].id]
        0 <= k < l < grown.len() implies grown[k].id != grown[l].id by {
        assert(grown[k] == orders[k]);
        if l < orders.len() {
            assert(grown[l] == orders[l]);
        }
    }
}

/// Removal preserves the stable-identifier invariant: the surviving
/// records are a subset of the old ones, each still below the counter and
/// still pairwise distinct. Cancellation and settlement both remove by
/// swap-with-last, so both preserve it; a refund-first clear leaves no
/// records at all and preserves it vacuously.
pub proof fn lemma_swap_remove_preserves_ids(orders: Seq<Order>, i: int, next_id: u64)
    requires
        ids_unique(orders, next_id),
        0 <= i < orders.len(),
    ensures
        ids_unique(swap_removed(orders, i), next_id),
{
    let shrunk = swap_removed(orders, i);
    assert forall|k: int| 0 <= k < shrunk.len() implies (#[trigger] shrunk[k].id) < next_id by {
        if k == i {
            assert(shrunk[k] == orders[orders.len() - 1]);
        } else {
            assert(shrunk[k] == orders[k]);
        }
    }
    assert forall|k: int, l: int|
        #![trigger shrunk[k].id, shrunk[l].id]
        0 <= k < l < shrunk.len() implies shrunk[k].id != shrunk[l].id by {
        let from_k: int = if k == i {
            orders.len() - 1
        } else {
            k
        };
        let from_l: int = if l == i {
            orders.len() - 1
        } else {
            l
        };
        assert(shrunk[k] == orders[from_k]);
        assert(shrunk[l] == orders[from_l]);
        if from_k < from_l {
            assert(orders[from_k].id != orders[from_l].id);
        } else {
            assert(orders[from_l].id != orders[from_k].id);
        }
    }
}

/// No single order's contribution exceeds the escrow total it is part of.
pub proof fn lemma_escrow_bounds_contrib(orders: Seq<Order>, i: int, asset: Seq<u8>)
    requires
        0 <= i < orders.len(),
    ensures
        escrow_of(orders, asset) >= escrow_contrib(orders[i], asset),
    decreases orders.len(),
{
    if i < orders.len() - 1 {
        lemma_escrow_bounds_contrib(orders.drop_last(), i, asset);
    }
}

/// Custody conservation across an open: if the protocol's balance of every
/// asset equals the escrow total backing the live orders, then after the
/// deposit transfer that accompanies an open — `amount_in` of `token_in`
/// from the caller into custody — and the append of the new record, the
/// balances again equal the escrow totals, for every asset.
pub proof fn lemma_conservation_after_open(
    b: Map<AccountAsset, nat>,
    orders: Seq<Order>,
    order: Order,
    custody: u64,
)
    requires
        forall|a: Seq<u8>| balance_in(b, custody, a) == escrow_of(orders, a),
        balance_in(b, order.owner, order.token_in@) >= order.amount_in,
        order.owner != custody,
    ensures
        balance_in(
            transferred(b, order.owner, custody, order.token_in@, order.amount_in as nat),
            custody,
            order.token_in@,
        ) == balance_in(b, custody, order.token_in@) + order.amount_in,
        forall|a: Seq<u8>|
            balance_in(
                transferred(b, order.owner, custody, order.token_in@, order.amount_in as nat),
                custody,
                a,
            ) == escrow_of(orders.push(order), a),
{
    let after = transferred(b, order.owner, custody, order.token_in@, order.amount_in as nat);
    lemma_transfer_balances(b, order.owner, custody, order.token_in@, order.amount_in as nat);
    assert forall|a: Seq<u8>| balance_in(after, custody, a) == escrow_of(
        orders.push(order),
        a,
    ) by {
        lemma_open_adds_escrow(orders, order, a);
    }
}

/// Custody conservation across a close: if the protocol's balance of every
/// asset equals the escrow total backing the live orders, then the refund
/// of the order at `i` is always funded, and after paying it and removing
/// the record the balances again equal the escrow totals, for every asset.
pub proof fn lemma_conservation_after_close(
    b: Map<AccountAsset, nat>,
    orders: Seq<Order>,
    i: int,
    custody: u64,
)
    requires
        forall|a: Seq<u8>| balance_in(b, custody, a) == escrow_of(orders, a),
        0 <= i < orders.len(),
        orders[i].owner != custody,
    ensures
        balance_in(b, custody, orders[i].token_in@) >= orders[i].amount_in,
        balance_in(
            transferred(
                b,
                custody,
                orders[i].owner,
                orders[i].token_in@,
                orders[i].amount_in as nat,
            ),
            orders[i].owner,
            orders[i].token_in@,
        ) == balance_in(b, orders[i].owner, orders[i].token_in@) + orders[i].amount_in,
        forall|a: Seq<u8>|
            balance_in(
                transferred(
                    b,
                    custody,
                    orders[i].owner,
                    orders[i].token_in@,
                    orders[i].amount_in as nat,
                ),
                custody,
                a,
            ) == escrow_of(swap_removed(orders, i), a),
{
    let order = orders[i];
    lemma_escrow_bounds_contrib(orders, i, order.token_in@);
    let after = transferred(b, custody, order.owner, order.token_in@, order.amount_in as nat);
    lemma_transfer_balances(b, custody, order.owner, order.token_in@, order.amount_in as nat);
    assert forall|a: Seq<u8>| balance_in(after, custody, a) == escrow_of(
        swap_removed(orders, i),
        a,
    ) by {
        lemma_remove_subtracts_escrow(orders, i, a);
    }
}

/// Custody conservation across an execution: the dispatch of the order at
/// `i` is always funded, and hands exactly that order's escrow to the
/// venue. Conservation is broken only for as long as the record remains —
/// the transient window of the pending call — and the settlement
/// callback's removal of the record restores it, for every asset.
pub proof fn lemma_conservation_after_execute(
    b: Map<AccountAsset, nat>,
    orders: Seq<Order>,
    i: int,
    custody: u64,
    venue: u64,
)
    requires
        forall|a: Seq<u8>| balance_in(b, custody, a) == escrow_of(orders, a),
        0 <= i < orders.len(),
        venue != custody,
    ensures
        balance_in(b, custody, orders[i].token_in@) >= orders[i].amount_in,
        forall|a: Seq<u8>|
            balance_in(
                transferred(b, custody, venue, orders[i].token_in@, orders[i].amount_in as nat),
                custody,
                a,
            ) == escrow_of(swap_removed(orders, i), a),
{
    let order = orders[i];
    lemma_escrow_bounds_contrib(orders, i, order.token_in@);
    let after = transferred(b, custody, venue, order.token_in@, order.amount_in as nat);
    lemma_transfer_balances(b, custody, venue, order.token_in@, order.amount_in as nat);
    assert forall|a: Seq<u8>| balance_in(after, custody, a) == escrow_of(
        swap_removed(orders, i),
        a,
    ) by {
        lemma_remove_subtracts_escrow(orders, i, a);
    }
}

/// Settlement pays out what came in: when the venue's payment of `amount`
/// arrives in custody and the two settlement credits — the fee to the
/// treasury, the rest to the owner — are applied, the treasury has gained
/// exactly `amount / EXECUTION_FEE`, the owner exactly the remainder, and
/// custody's balance of the proceeds asset is back where it started.
pub proof fn lemma_settlement_balances(
    b: Map<AccountAsset, nat>,
    venue: u64,
    custody: u64,
    treasury: u64,
    owner: u64,
    asset: Seq<u8>,
    amount: u128,
)
    requires
        balance_in(b, venue, asset) >= amount,
        venue != custody,
        venue != treasury,
        venue != owner,
        custody != treasury,
        custody != owner,
        treasury != owner,
    ensures
        ({
            let fee = (amount / (EXECUTION_FEE as u128)) as nat;
            let payout = (amount - amount / (EXECUTION_FEE as u128)) as nat;
            let received = transferred(b, venue, custody, asset, amount as nat);
            let fee_paid = transferred(received, custody, treasury, asset, fee);
            let settled = transferred(fee_paid, custody, owner, asset, payout);
            &&& balance_in(settled, custody, asset) == balance_in(b, custody, asset)
            &&& balance_in(settled, treasury, asset) == balance_in(b, treasury, asset) + fee
            &&& balance_in(settled, owner, asset) == balance_in(b, owner, asset) + payout
        }),
{
    lemma_fee_split_exact(amount);
    let fee = (amount / (EXECUTION_FEE as u128)) as nat;
    let payout = (amount - amount / (EXECUTION_FEE as u128)) as nat;
    let received = transferred(b, venue, custody, asset, amount as nat);
    lemma_transfer_balances(b, venue, custody, asset, amount as nat);
    let fee_paid = transferred(received, custody, treasury, asset, fee);
    lemma_transfer_balances(received, custody, treasury, asset, fee);
    let settled = transferred(fee_paid, custody, owner, asset, payout);
    lemma_transfer_balances(fee_paid, custody, owner, asset, payout);
}

/// A bare wipe strands the whole escrow: clearing the store without
/// refunds leaves no live order owed anything — the emptied store backs
/// an escrow total of zero — while custody still holds what the cleared
/// orders had deposited. Whatever custody held for an asset under
/// conservation, exactly that much is stranded.
pub proof fn lemma_bare_clear_strands_escrow(
    b: Map<AccountAsset, nat>,
    orders: Seq<Order>,
    custody: u64,
    asset: Seq<u8>,
)
    requires
        balance_in(b, custody, asset) == escrow_of(orders, asset),
    ensures
        escrow_of(Seq::<Order>::empty(), asset) == 0,
        balance_in(b, custody, asset) - escrow_of(Seq::<Order>::empty(), asset) == escrow_of(
            orders,
            asset,
        ),
{
}

/// A refund-first clear strands nothing: if one credit refunds each live
/// order's deposit to its owner, the credits pay out, asset by asset,
/// exactly the escrow total that backed the cleared store.
pub proof fn lemma_clear_refunds_escrow(
    orders: Seq<Order>,
    refunds: Seq<CreditModel>,
    asset: Seq<u8>,
)
    requires
        refunds.len() == orders.len(),
        forall|i: int| 0 <= i < orders.len() ==> refunds[i] == refund_of(#[trigger] orders[i]),
    ensures
        credited_total(refunds, asset) == escrow_of(orders, asset),
    decreases orders.len(),
{
    if orders.len() > 0 {
        lemma_clear_refunds_escrow(orders.drop_last(), refunds.drop_last(), asset);
        assert(refunds.last() == refund_of(orders.last()));
        assert(credit_contrib(refunds.last(), asset) == escrow_contrib(orders.last(), asset));
    }
}

} // verus!
