//! Tests of the economic sub-protocols on decoded records.

use arestoken::engine::{
    apply_burn, buy_from_pool, credit_buyer, credit_recipient, debit_sender, deduct_supply,
    fraction_of, init_pool, init_token, init_user_token, init_whale, tax_amount, update_whale,
    GENESIS_SUPPLY,
};
use arestoken::records::{AresToken, KingWhale, LiquidityPool};
use arestoken::TokenError;

fn addr(b: u8) -> Vec<u8> {
    vec![b; 32]
}

fn fresh_token() -> AresToken {
    AresToken {
        is_initialized: false,
        total_supply: 0,
        unlocked_supply: 0,
        locked_supply: 0,
        symbol: vec![0; 4],
    }
}

#[test]
fn genesis_mint_values() {
    let mut t = fresh_token();
    init_token(&mut t);
    assert!(t.is_initialized);
    assert_eq!(t.total_supply, 40_000_000_000_000);
    assert_eq!(t.unlocked_supply, 0);
    assert_eq!(t.locked_supply, 40_000_000_000_000);
    assert_eq!(t.symbol, b"ARES".to_vec());
    assert_eq!(t.total_supply, t.unlocked_supply + t.locked_supply);
}

#[test]
fn genesis_mint_only_once() {
    let mut t = fresh_token();
    init_token(&mut t);
    t.unlocked_supply = 77;
    let before = t.clone();
    init_token(&mut t);
    assert_eq!(t, before);
}

#[test]
fn user_genesis_is_all_zero() {
    let mut t = fresh_token();
    init_user_token(&mut t);
    assert!(t.is_initialized);
    assert_eq!(t.total_supply, 0);
    assert_eq!(t.unlocked_supply, 0);
    assert_eq!(t.locked_supply, 0);
    assert_eq!(t.symbol, b"ARES".to_vec());
}

#[test]
fn fraction_values_are_exact() {
    assert_eq!(fraction_of(GENESIS_SUPPLY, 20, 100), 8_000_000_000_000);
    assert_eq!(fraction_of(8_000_000_000_000, 25, 10000), 20_000_000_000);
    assert_eq!(fraction_of(999, 5, 100), 49);
    assert_eq!(fraction_of(0, 25, 10000), 0);
    assert_eq!(fraction_of(u64::MAX, 100, 100), u64::MAX);
    assert_eq!(tax_amount(1000), 50);
    assert_eq!(tax_amount(19), 0);
}

#[test]
fn pool_genesis_values() {
    let mut p = LiquidityPool { is_initialized: false, reserve: 0, last_burn_timestamp: 0 };
    init_pool(&mut p, GENESIS_SUPPLY, 5555);
    assert!(p.is_initialized);
    assert_eq!(p.reserve, 8_000_000_000_000);
    assert_eq!(p.last_burn_timestamp, 5555);
    let before = p.clone();
    init_pool(&mut p, GENESIS_SUPPLY, 9999);
    assert_eq!(p, before);
}

#[test]
fn burn_gating_boundary() {
    let mut p = LiquidityPool {
        is_initialized: true,
        reserve: 8_000_000_000_000,
        last_burn_timestamp: 1000,
    };
    // One second short of the interval: nothing happens.
    apply_burn(&mut p, 1000 + 3599);
    assert_eq!(p.reserve, 8_000_000_000_000);
    assert_eq!(p.last_burn_timestamp, 1000);
    // Exactly the interval: 0.25% leaves and the clock resets.
    apply_burn(&mut p, 1000 + 3600);
    assert_eq!(p.reserve, 8_000_000_000_000 - 20_000_000_000);
    assert_eq!(p.last_burn_timestamp, 4600);
}

#[test]
fn burn_happens_once_per_call_even_after_many_hours() {
    let mut p = LiquidityPool { is_initialized: true, reserve: 10_000, last_burn_timestamp: 0 };
    apply_burn(&mut p, 10 * 3600);
    // 10_000 * 25 / 10000 = 25, burnt exactly once.
    assert_eq!(p.reserve, 9_975);
    assert_eq!(p.last_burn_timestamp, 36_000);
}

#[test]
fn whale_update_is_strict() {
    let mut w = KingWhale { kingwhale_account: addr(1), largest_purchase: 500 };
    // An equal purchase does not update the record.
    update_whale(&mut w, &addr(2), 500);
    assert_eq!(w.kingwhale_account, addr(1));
    assert_eq!(w.largest_purchase, 500);
    // A strictly larger one does.
    update_whale(&mut w, &addr(2), 501);
    assert_eq!(w.kingwhale_account, addr(2));
    assert_eq!(w.largest_purchase, 501);
}

#[test]
fn whale_lazy_init_records_own_address() {
    let mut w = KingWhale { kingwhale_account: vec![0; 32], largest_purchase: 123 };
    init_whale(&mut w, &addr(9));
    assert_eq!(w.kingwhale_account, addr(9));
    assert_eq!(w.largest_purchase, 0);
    // Once a holder is recorded the record is immutable to init.
    init_whale(&mut w, &addr(8));
    assert_eq!(w.kingwhale_account, addr(9));
}

#[test]
fn buy_overdraw_fails_and_changes_nothing() {
    let mut p = LiquidityPool { is_initialized: true, reserve: 100, last_burn_timestamp: 7 };
    let mut t = fresh_token();
    init_token(&mut t);
    let r = buy_from_pool(&mut p, &mut t, 101);
    assert_eq!(r, Err(TokenError::InsufficientLiquidity));
    assert_eq!(p.reserve, 100);
    assert_eq!(t.unlocked_supply, 0);
}

#[test]
fn buy_within_reserve_moves_the_amount() {
    let mut p = LiquidityPool { is_initialized: true, reserve: 100, last_burn_timestamp: 7 };
    let mut t = fresh_token();
    init_token(&mut t);
    let r = buy_from_pool(&mut p, &mut t, 100);
    assert_eq!(r, Ok(()));
    assert_eq!(p.reserve, 0);
    assert_eq!(t.unlocked_supply, 100);
}

#[test]
fn credit_buyer_initializes_lazily() {
    let mut b = fresh_token();
    credit_buyer(&mut b, 250);
    assert!(b.is_initialized);
    assert_eq!(b.total_supply, 0);
    assert_eq!(b.unlocked_supply, 250);
}

#[test]
fn deduction_stops_at_zero() {
    let mut t = fresh_token();
    init_token(&mut t);
    t.unlocked_supply = 1000;
    // 1000 for the transfer and 50 of tax would go below zero together
    // with a second call; the counter never goes negative.
    deduct_supply(&mut t, 1000);
    assert_eq!(t.unlocked_supply, 0);
}

#[test]
fn deduction_takes_amount_plus_tax() {
    let mut t = fresh_token();
    init_token(&mut t);
    t.unlocked_supply = 10_000;
    deduct_supply(&mut t, 1000);
    assert_eq!(t.unlocked_supply, 10_000 - 1000 - 50);
}

#[test]
fn balances_saturate_at_the_top() {
    let mut t = fresh_token();
    t.unlocked_supply = u64::MAX - 1;
    credit_recipient(&mut t, 5);
    assert_eq!(t.unlocked_supply, u64::MAX);
}

#[test]
fn sender_debit_stops_at_zero() {
    let mut t = fresh_token();
    t.unlocked_supply = 3;
    debit_sender(&mut t, 10);
    assert_eq!(t.unlocked_supply, 0);
}
