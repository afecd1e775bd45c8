//! End-to-end scenarios for the execution protocol, driven the way a host
//! would drive it: a mock ledger applies every credit the engine hands
//! back, and a mock venue resolves dispatched swaps.

use std::collections::HashMap;

use order_book::errors::OrderError;
use order_book::protocol::{Credit, OrderBookContract, SwapPayment, SwapResult, EXECUTION_FEE};

const ALICE: u64 = 1;
const BOB: u64 = 2;
const TREASURY: u64 = 50;
const CONTRACT: u64 = 100;
const VENUE: u64 = 200;

struct MockLedger {
    balances: HashMap<(u64, Vec<u8>), u128>,
}

impl MockLedger {
    fn new() -> Self {
        MockLedger { balances: HashMap::new() }
    }

    fn set(&mut self, who: u64, token: &[u8], amount: u128) {
        self.balances.insert((who, token.to_vec()), amount);
    }

    fn get(&self, who: u64, token: &[u8]) -> u128 {
        *self.balances.get(&(who, token.to_vec())).unwrap_or(&0)
    }

    fn transfer(&mut self, from: u64, to: u64, token: &[u8], amount: u128) {
        let have = self.get(from, token);
        assert!(have >= amount, "mock ledger: insufficient balance");
        self.set(from, token, have - amount);
        let dest = self.get(to, token);
        self.set(to, token, dest + amount);
    }

    fn apply_credit(&mut self, from: u64, credit: &Credit) {
        self.transfer(from, credit.to, &credit.token, credit.amount);
    }

    fn snapshot(&self) -> HashMap<(u64, Vec<u8>), u128> {
        let mut clean: HashMap<(u64, Vec<u8>), u128> = HashMap::new();
        for (key, value) in &self.balances {
            if *value != 0 {
                clean.insert(key.clone(), *value);
            }
        }
        clean
    }
}

fn tok(s: &str) -> Vec<u8> {
    s.as_bytes().to_vec()
}

const T1: &str = "AAA-aaa111";
const T2: &str = "BBB-bbb222";

/// Opens an order as the host would: move the deposit into custody, then
/// call the engine; revert the deposit if the engine refuses.
fn host_open(
    ledger: &mut MockLedger,
    book: &mut OrderBookContract,
    caller: u64,
    token_out: &str,
    limit: u128,
    token_in: &str,
    amount_in: u128,
) -> Result<(), OrderError> {
    ledger.transfer(caller, CONTRACT, token_in.as_bytes(), amount_in);
    let r = book.open_order(caller, tok(token_out), limit, tok(token_in), amount_in);
    if r.is_err() {
        ledger.transfer(CONTRACT, caller, token_in.as_bytes(), amount_in);
    }
    r
}

#[test]
fn open_order_appends_and_escrows() {
    let mut ledger = MockLedger::new();
    let mut book = OrderBookContract::init();
    ledger.set(ALICE, T1.as_bytes(), 1_000);

    host_open(&mut ledger, &mut book, ALICE, T2, 50, T1, 100).unwrap();

    assert_eq!(book.get_orders_count(), 1);
    assert_eq!(ledger.get(CONTRACT, T1.as_bytes()), 100);
    assert_eq!(ledger.get(ALICE, T1.as_bytes()), 900);

    let order = book.get_order(0).unwrap();
    assert_eq!(order.id, 0);
    assert_eq!(order.owner, ALICE);
    assert_eq!(order.token_in, tok(T1));
    assert_eq!(order.amount_in, 100);
    assert_eq!(order.token_out, tok(T2));
    assert_eq!(order.limit, 50);
}

#[test]
fn open_order_rejects_invalid_token_out() {
    let mut book = OrderBookContract::init();
    let r = book.open_order(ALICE, tok("bad"), 50, tok(T1), 100);
    assert_eq!(r, Err(OrderError::InvalidTokenOut));
    assert_eq!(book.get_orders_count(), 0);
}

#[test]
fn open_order_rejects_zero_limit() {
    let mut book = OrderBookContract::init();
    let r = book.open_order(ALICE, tok(T2), 0, tok(T1), 100);
    assert_eq!(r, Err(OrderError::ZeroLimit));
    assert_eq!(book.get_orders_count(), 0);
}

#[test]
fn open_order_rejects_invalid_token_in() {
    let mut book = OrderBookContract::init();
    let r = book.open_order(ALICE, tok(T2), 50, tok("EGLD"), 100);
    assert_eq!(r, Err(OrderError::InvalidTokenIn));
    assert_eq!(book.get_orders_count(), 0);
}

#[test]
fn open_order_rejects_zero_amount() {
    let mut book = OrderBookContract::init();
    let r = book.open_order(ALICE, tok(T2), 50, tok(T1), 0);
    assert_eq!(r, Err(OrderError::ZeroAmountIn));
    assert_eq!(book.get_orders_count(), 0);
}

#[test]
fn open_order_rejects_same_token() {
    let mut book = OrderBookContract::init();
    let r = book.open_order(ALICE, tok(T1), 50, tok(T1), 100);
    assert_eq!(r, Err(OrderError::SameToken));
    assert_eq!(book.get_orders_count(), 0);
}

#[test]
fn close_order_refunds_owner() {
    let mut ledger = MockLedger::new();
    let mut book = OrderBookContract::init();
    ledger.set(ALICE, T1.as_bytes(), 1_000);
    ledger.set(BOB, T1.as_bytes(), 1_000);
    host_open(&mut ledger, &mut book, ALICE, T2, 50, T1, 100).unwrap();
    host_open(&mut ledger, &mut book, BOB, T2, 60, T1, 200).unwrap();

    let refund = book.close_order(0).unwrap();
    assert_eq!(refund.to, ALICE);
    assert_eq!(refund.token, tok(T1));
    assert_eq!(refund.amount, 100);
    ledger.apply_credit(CONTRACT, &refund);

    assert_eq!(book.get_orders_count(), 1);
    assert_eq!(ledger.get(ALICE, T1.as_bytes()), 1_000);
    assert_eq!(ledger.get(CONTRACT, T1.as_bytes()), 200);
}

#[test]
fn close_order_out_of_bounds_changes_nothing() {
    let mut ledger = MockLedger::new();
    let mut book = OrderBookContract::init();
    ledger.set(ALICE, T1.as_bytes(), 1_000);
    host_open(&mut ledger, &mut book, ALICE, T2, 50, T1, 100).unwrap();

    let r = book.close_order(5);
    assert!(matches!(r, Err(OrderError::OutOfBounds)));
    assert_eq!(book.get_orders_count(), 1);
    assert_eq!(book.get_order(0).unwrap().owner, ALICE);
}

#[test]
fn open_then_close_round_trip_is_net_zero() {
    let mut ledger = MockLedger::new();
    let mut book = OrderBookContract::init();
    ledger.set(ALICE, T1.as_bytes(), 777);
    let before = ledger.snapshot();

    host_open(&mut ledger, &mut book, ALICE, T2, 50, T1, 123).unwrap();
    let refund = book.close_order(0).unwrap();
    ledger.apply_credit(CONTRACT, &refund);

    assert_eq!(ledger.snapshot(), before);
    assert_eq!(book.get_orders_count(), 0);
}

#[test]
fn settlement_splits_fee_exactly() {
    let mut ledger = MockLedger::new();
    let mut book = OrderBookContract::init();
    ledger.set(ALICE, T1.as_bytes(), 1_000);
    ledger.set(VENUE, T2.as_bytes(), 1_000_000);
    host_open(&mut ledger, &mut book, ALICE, T2, 50, T1, 100).unwrap();

    let request = book.execute_order(0, VENUE, 50).unwrap();
    assert_eq!(request.index, 0);
    assert_eq!(request.owner, ALICE);
    assert_eq!(request.venue, VENUE);
    assert_eq!(request.token_in, tok(T1));
    assert_eq!(request.amount_in, 100);
    assert_eq!(request.token_out, tok(T2));
    assert_eq!(request.min_amount_out, 50);
    // the order stays live while the venue call is pending
    assert_eq!(book.get_orders_count(), 1);

    // the host attaches the escrowed funds to the venue call
    ledger.transfer(CONTRACT, VENUE, &request.token_in, request.amount_in);
    // the venue fills the order and pays 12345 of T2 to the contract
    let amount_out: u128 = 12_345;
    ledger.transfer(VENUE, CONTRACT, T2.as_bytes(), amount_out);

    let settlement = book
        .my_endpoint_callback(
            request.index,
            request.owner,
            TREASURY,
            SwapResult::Success(SwapPayment { token: tok(T2), nonce: 0, amount: amount_out }),
        )
        .unwrap();

    assert_eq!(settlement.fee.to, TREASURY);
    assert_eq!(settlement.fee.token, tok(T2));
    assert_eq!(settlement.fee.amount, amount_out / u128::from(EXECUTION_FEE));
    assert_eq!(settlement.fee.amount, 12);
    assert_eq!(settlement.payout.to, ALICE);
    assert_eq!(settlement.payout.token, tok(T2));
    assert_eq!(settlement.payout.amount, 12_333);
    assert_eq!(settlement.fee.amount + settlement.payout.amount, amount_out);

    ledger.apply_credit(CONTRACT, &settlement.fee);
    ledger.apply_credit(CONTRACT, &settlement.payout);

    assert_eq!(book.get_orders_count(), 0);
    assert_eq!(ledger.get(ALICE, T2.as_bytes()), 12_333);
    assert_eq!(ledger.get(TREASURY, T2.as_bytes()), 12);
    assert_eq!(ledger.get(CONTRACT, T2.as_bytes()), 0);
}

#[test]
fn settlement_fee_rounds_down_to_zero_on_small_payments() {
    let mut ledger = MockLedger::new();
    let mut book = OrderBookContract::init();
    ledger.set(ALICE, T1.as_bytes(), 1_000);
    host_open(&mut ledger, &mut book, ALICE, T2, 50, T1, 100).unwrap();

    let settlement = book
        .my_endpoint_callback(
            0,
            ALICE,
            TREASURY,
            SwapResult::Success(SwapPayment { token: tok(T2), nonce: 0, amount: 999 }),
        )
        .unwrap();
    assert_eq!(settlement.fee.amount, 0);
    assert_eq!(settlement.payout.amount, 999);
}

#[test]
fn settlement_credits_the_asset_the_venue_reported() {
    // the callback trusts the venue's payment, not the stored record:
    // both credits carry the asset the venue actually paid
    let mut ledger = MockLedger::new();
    let mut book = OrderBookContract::init();
    ledger.set(ALICE, T1.as_bytes(), 1_000);
    host_open(&mut ledger, &mut book, ALICE, T2, 50, T1, 100).unwrap();

    let other = "CCC-ccc333";
    let settlement = book
        .my_endpoint_callback(
            0,
            ALICE,
            TREASURY,
            SwapResult::Success(SwapPayment { token: tok(other), nonce: 0, amount: 5_000 }),
        )
        .unwrap();
    assert_eq!(settlement.fee.token, tok(other));
    assert_eq!(settlement.payout.token, tok(other));
    assert_eq!(settlement.fee.amount, 5);
    assert_eq!(settlement.payout.amount, 4_995);
}

#[test]
fn venue_failure_is_fatal_and_preserves_everything() {
    let mut ledger = MockLedger::new();
    let mut book = OrderBookContract::init();
    ledger.set(ALICE, T1.as_bytes(), 1_000);
    host_open(&mut ledger, &mut book, ALICE, T2, 50, T1, 100).unwrap();
    let before = ledger.snapshot();

    let request = book.execute_order(0, VENUE, 50).unwrap();
    // funds leave custody with the dispatched call...
    ledger.transfer(CONTRACT, VENUE, &request.token_in, request.amount_in);
    // ...and the failing venue reverts its side of the attached transfer;
    // the engine relies on exactly this property of the collaborator.
    ledger.transfer(VENUE, CONTRACT, &request.token_in, request.amount_in);

    let r = book.my_endpoint_callback(request.index, request.owner, TREASURY, SwapResult::Failure);
    assert!(matches!(r, Err(OrderError::SwapFailed)));

    assert_eq!(book.get_orders_count(), 1);
    let order = book.get_order(0).unwrap();
    assert_eq!(order.owner, ALICE);
    assert_eq!(order.amount_in, 100);
    assert_eq!(ledger.snapshot(), before);
}

#[test]
fn settlement_on_stale_index_is_out_of_bounds() {
    let mut book = OrderBookContract::init();
    let r = book.my_endpoint_callback(
        3,
        ALICE,
        TREASURY,
        SwapResult::Success(SwapPayment { token: tok(T2), nonce: 0, amount: 10 }),
    );
    assert!(matches!(r, Err(OrderError::OutOfBounds)));
    assert_eq!(book.get_orders_count(), 0);
}

#[test]
fn closing_first_order_compacts_by_moving_last() {
    let mut ledger = MockLedger::new();
    let mut book = OrderBookContract::init();
    ledger.set(ALICE, T1.as_bytes(), 1_000);
    ledger.set(BOB, T1.as_bytes(), 1_000);
    host_open(&mut ledger, &mut book, ALICE, T2, 10, T1, 100).unwrap();
    host_open(&mut ledger, &mut book, BOB, T2, 20, T1, 200).unwrap();
    host_open(&mut ledger, &mut book, BOB, T2, 30, T1, 300).unwrap();

    let refund = book.close_order(0).unwrap();
    ledger.apply_credit(CONTRACT, &refund);

    assert_eq!(book.get_orders_count(), 2);
    // the previously last order (id 2) now reads at index 0
    let moved = book.get_order(0).unwrap();
    assert_eq!(moved.id, 2);
    assert_eq!(moved.amount_in, 300);
    // the order in between kept its slot
    let untouched = book.get_order(1).unwrap();
    assert_eq!(untouched.id, 1);
    assert_eq!(untouched.amount_in, 200);
}

#[test]
fn two_orders_close_first_leaves_second_at_index_zero() {
    let mut ledger = MockLedger::new();
    let mut book = OrderBookContract::init();
    ledger.set(ALICE, T1.as_bytes(), 1_000);
    ledger.set(BOB, T1.as_bytes(), 1_000);
    // order A
    host_open(&mut ledger, &mut book, ALICE, T2, 50, T1, 100).unwrap();
    // order B, similarly
    host_open(&mut ledger, &mut book, BOB, T2, 50, T1, 100).unwrap();

    // close A
    let refund = book.close_order(0).unwrap();
    assert_eq!(refund.to, ALICE);
    ledger.apply_credit(CONTRACT, &refund);

    // B, originally at index 1, now reads at index 0
    assert_eq!(book.get_orders_count(), 1);
    let b = book.get_order(0).unwrap();
    assert_eq!(b.owner, BOB);
    assert_eq!(b.id, 1);
}

#[test]
fn clear_storage_refunds_every_owner() {
    let mut ledger = MockLedger::new();
    let mut book = OrderBookContract::init();
    ledger.set(ALICE, T1.as_bytes(), 1_000);
    ledger.set(BOB, T1.as_bytes(), 500);
    ledger.set(BOB, T2.as_bytes(), 500);
    let before = ledger.snapshot();
    host_open(&mut ledger, &mut book, ALICE, T2, 10, T1, 400).unwrap();
    host_open(&mut ledger, &mut book, BOB, T2, 20, T1, 250).unwrap();
    host_open(&mut ledger, &mut book, BOB, T1, 30, T2, 125).unwrap();

    let refunds = book.clear_storage();
    assert_eq!(refunds.len(), 3);
    assert_eq!(refunds[0].to, ALICE);
    assert_eq!(refunds[0].token, tok(T1));
    assert_eq!(refunds[0].amount, 400);
    assert_eq!(refunds[1].to, BOB);
    assert_eq!(refunds[1].token, tok(T1));
    assert_eq!(refunds[1].amount, 250);
    assert_eq!(refunds[2].to, BOB);
    assert_eq!(refunds[2].token, tok(T2));
    assert_eq!(refunds[2].amount, 125);
    for refund in &refunds {
        ledger.apply_credit(CONTRACT, refund);
    }

    // refund-first: nothing is stranded in custody, every owner is whole
    assert_eq!(book.get_orders_count(), 0);
    assert_eq!(ledger.get(CONTRACT, T1.as_bytes()), 0);
    assert_eq!(ledger.get(CONTRACT, T2.as_bytes()), 0);
    assert_eq!(ledger.snapshot(), before);
}

#[test]
fn order_ids_stay_unique_across_removals() {
    let mut ledger = MockLedger::new();
    let mut book = OrderBookContract::init();
    ledger.set(ALICE, T1.as_bytes(), 1_000);
    host_open(&mut ledger, &mut book, ALICE, T2, 10, T1, 100).unwrap();
    host_open(&mut ledger, &mut book, ALICE, T2, 10, T1, 100).unwrap();
    assert_eq!(book.get_next_id(), 2);

    let refund = book.close_order(0).unwrap();
    ledger.apply_credit(CONTRACT, &refund);
    host_open(&mut ledger, &mut book, ALICE, T2, 10, T1, 100).unwrap();

    // the freed position is reused, the identifier is not
    assert_eq!(book.get_next_id(), 3);
    let mut ids: Vec<u64> = Vec::new();
    for i in 0..book.get_orders_count() {
        ids.push(book.get_order(i).unwrap().id);
    }
    ids.sort();
    assert_eq!(ids, vec![1, 2]);
}

#[test]
fn bare_clear_all_strands_escrow() {
    // the store-level wipe, unlike the protocol's refund-first clear,
    // refunds nobody: the deposits that backed the cleared orders stay
    // stuck in custody with no order left to claim them
    let mut ledger = MockLedger::new();
    let mut store = order_book::store::OrderStore::new();
    ledger.set(ALICE, T1.as_bytes(), 1_000);
    ledger.transfer(ALICE, CONTRACT, T1.as_bytes(), 100);
    store.append(order_book::store::Order {
        id: 0,
        owner: ALICE,
        token_in: tok(T1),
        amount_in: 100,
        token_out: tok(T2),
        limit: 50,
    });

    store.clear_all();

    assert_eq!(store.count(), 0);
    // nothing is owed to anyone any more, yet custody still holds the
    // deposit: 100 of T1 is stranded and the owner stays short
    assert_eq!(ledger.get(CONTRACT, T1.as_bytes()), 100);
    assert_eq!(ledger.get(ALICE, T1.as_bytes()), 900);
}

#[test]
fn claim_tokens_sweeps_even_escrowed_backing() {
    let mut ledger = MockLedger::new();
    let mut book = OrderBookContract::init();
    ledger.set(ALICE, T1.as_bytes(), 1_000);
    host_open(&mut ledger, &mut book, ALICE, T2, 50, T1, 100).unwrap();
    assert_eq!(ledger.get(CONTRACT, T1.as_bytes()), 100);

    // the sweep takes the whole balance, escrow included
    let sweep = book.claim_tokens(TREASURY, tok(T1), ledger.get(CONTRACT, T1.as_bytes()));
    assert_eq!(sweep.to, TREASURY);
    assert_eq!(sweep.token, tok(T1));
    assert_eq!(sweep.amount, 100);
    ledger.apply_credit(CONTRACT, &sweep);

    // the order is still live but its backing funds are gone: custody
    // conservation is broken and a later refund would be unfunded
    assert_eq!(book.get_orders_count(), 1);
    assert_eq!(ledger.get(CONTRACT, T1.as_bytes()), 0);
    assert!(ledger.get(CONTRACT, T1.as_bytes()) < book.get_order(0).unwrap().amount_in);
}

#[test]
fn execute_order_out_of_bounds() {
    let book = OrderBookContract::init();
    let r = book.execute_order(0, VENUE, 50);
    assert!(matches!(r, Err(OrderError::OutOfBounds)));
}
