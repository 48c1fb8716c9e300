//! The economic sub-protocols: genesis mint, pool genesis, time-gated
//! liquidity burn, whale tracking, buy, and the taxed-transfer balance
//! updates.  Each executable step carries a contract that pins its result
//! down exactly; the spec functions here are also what the orchestrator's
//! contract is phrased over.
//!
//! All percentages are integer arithmetic, `amount * numerator /
//! denominator` computed in 128 bits and rounded toward zero, so every
//! result is deterministic.  Balance additions saturate at the largest
//! 64-bit value and balance deductions stop at zero, so no step ever
//! aborts on arithmetic.

use vstd::prelude::*;

use crate::records::{AresToken, KingWhale, LiquidityPool, TokenView, WhaleView, is_address};

verus! {

/// The total supply minted at genesis: forty million tokens with six
/// implied decimal places.
pub const GENESIS_SUPPLY: u64 = 40_000_000 * 1_000_000;

/// Seconds that must elapse between two liquidity burns.
pub const BURN_INTERVAL_SECONDS: i64 = 3600;

/// The pool's genesis reserve, as a fraction of the total supply:
/// 20 / 100.
pub const RESERVE_NUMERATOR: u64 = 20;

/// Denominator of the genesis-reserve fraction.
pub const RESERVE_DENOMINATOR: u64 = 100;

/// The share of the reserve burnt per burn: 25 / 10000, that is 0.25%.
pub const BURN_NUMERATOR: u64 = 25;

/// Denominator of the burn fraction.
pub const BURN_DENOMINATOR: u64 = 10000;

/// The flat transfer tax: 5 / 100.
pub const TAX_NUMERATOR: u64 = 5;

/// Denominator of the transfer-tax fraction.
pub const TAX_DENOMINATOR: u64 = 100;

/// The four ASCII bytes of the token symbol, "ARES".
pub open spec fn ares_symbol() -> Seq<u8> {
    seq![65u8, 82u8, 69u8, 83u8]
}

/// Builds the token symbol bytes.
pub fn make_ares_symbol() -> (r: Vec<u8>)
    ensures
        r@ =~= ares_symbol(),
{
    let mut r: Vec<u8> = Vec::new();
    r.push(65u8);
    r.push(82u8);
    r.push(69u8);
    r.push(83u8);
    r
}

/// `amount * numerator / denominator`, rounded toward zero.
pub open spec fn spec_fraction(amount: u64, numerator: u64, denominator: u64) -> u64
    recommends
        0 < denominator,
        numerator <= denominator,
{
    ((amount as int) * (numerator as int) / (denominator as int)) as u64
}

/// Computes `amount * numerator / denominator` exactly, in 128-bit
/// arithmetic; the result never exceeds `amount` when the fraction is at
/// most one.
pub fn fraction_of(amount: u64, numerator: u64, denominator: u64) -> (r: u64)
    requires
        0 < denominator,
        numerator <= denominator,
    ensures
        r == spec_fraction(amount, numerator, denominator),
        r <= amount,
{
    proof {
        assert((amount as int) * (numerator as int) <= (amount as int) * (denominator as int))
            by (nonlinear_arith)
            requires
                numerator <= denominator,
                0 <= amount,
        ;
        assert((amount as int) * (denominator as int) / (denominator as int) == amount as int)
            by (nonlinear_arith)
            requires
                0 < denominator,
        ;
        assert((amount as int) * (numerator as int) / (denominator as int) <= (amount as int) * (
        denominator as int) / (denominator as int)) by (nonlinear_arith)
            requires
                0 < denominator,
                (amount as int) * (numerator as int) <= (amount as int) * (denominator as int),
        ;
        assert(0 <= (amount as int) * (numerator as int) / (denominator as int))
            by (nonlinear_arith)
            requires
                0 <= amount,
                0 <= numerator,
                0 < denominator,
        ;
        assert((amount as int) * (numerator as int) <= (u64::MAX as int) * (u64::MAX as int))
            by (nonlinear_arith)
            requires
                0 <= amount <= u64::MAX,
                0 <= numerator <= u64::MAX,
        ;
    }
    (((amount as u128) * (numerator as u128)) / (denominator as u128)) as u64
}

/// Genesis mint: an uninitialized token record becomes the freshly
/// minted ledger, with the whole supply locked; an initialized one is
/// left untouched.
pub open spec fn spec_init_token(t: TokenView) -> TokenView {
    if t.is_initialized {
        t
    } else {
        TokenView {
            is_initialized: true,
            total_supply: GENESIS_SUPPLY,
            unlocked_supply: 0,
            locked_supply: GENESIS_SUPPLY,
            symbol: ares_symbol(),
        }
    }
}

/// Lazily applies the genesis mint to the main token record.
pub fn init_token(t: &mut AresToken)
    ensures
        final(t)@ == spec_init_token(old(t)@),
{
    if !t.is_initialized {
        t.is_initialized = true;
        t.total_supply = GENESIS_SUPPLY;
        t.unlocked_supply = 0;
        t.locked_supply = GENESIS_SUPPLY;
        t.symbol = make_ares_symbol();
        assert(t@ =~= spec_init_token(old(t)@));
    }
}

/// Genesis of a user's own token record: all balances zero.
pub open spec fn spec_init_user_token(t: TokenView) -> TokenView {
    if t.is_initialized {
        t
    } else {
        TokenView {
            is_initialized: true,
            total_supply: 0,
            unlocked_supply: 0,
            locked_supply: 0,
            symbol: ares_symbol(),
        }
    }
}

/// Lazily initializes a user's own token record.
pub fn init_user_token(t: &mut AresToken)
    ensures
        final(t)@ == spec_init_user_token(old(t)@),
{
    if !t.is_initialized {
        t.is_initialized = true;
        t.total_supply = 0;
        t.unlocked_supply = 0;
        t.locked_supply = 0;
        t.symbol = make_ares_symbol();
        assert(t@ =~= spec_init_user_token(old(t)@));
    }
}

/// Pool genesis: the reserve starts at 20% of the token's total supply,
/// rounded down, and the burn clock starts now; an initialized pool is
/// left untouched.
pub open spec fn spec_init_pool(p: crate::records::PoolView, total_supply: u64, now: i64) -> crate::records::PoolView {
    if p.is_initialized {
        p
    } else {
        crate::records::PoolView {
            is_initialized: true,
            reserve: spec_fraction(total_supply, RESERVE_NUMERATOR, RESERVE_DENOMINATOR),
            last_burn_timestamp: now,
        }
    }
}

/// Lazily applies pool genesis.
pub fn init_pool(p: &mut LiquidityPool, total_supply: u64, now: i64)
    ensures
        final(p)@ == spec_init_pool(old(p)@, total_supply, now),
{
    if !p.is_initialized {
        p.is_initialized = true;
        p.reserve = fraction_of(total_supply, RESERVE_NUMERATOR, RESERVE_DENOMINATOR);
        p.last_burn_timestamp = now;
    }
}

/// Seconds elapsed between the last burn and now, as an unbounded
/// integer so that no subtraction can wrap.
pub open spec fn spec_elapsed(now: i64, last_burn: i64) -> int {
    now as int - last_burn as int
}

/// The amount one burn removes: 0.25% of the reserve, rounded down.
pub open spec fn spec_burn_amount(reserve: u64) -> u64 {
    spec_fraction(reserve, BURN_NUMERATOR, BURN_DENOMINATOR)
}

/// The time-gated burn: if at least [`BURN_INTERVAL_SECONDS`] have
/// elapsed since the last burn, the reserve loses 0.25% (rounded down)
/// and the burn clock resets to now; otherwise nothing changes.  At most
/// one burn happens per invocation, however much time has passed.
pub open spec fn spec_apply_burn(p: crate::records::PoolView, now: i64) -> crate::records::PoolView {
    if spec_elapsed(now, p.last_burn_timestamp) >= BURN_INTERVAL_SECONDS {
        crate::records::PoolView {
            is_initialized: p.is_initialized,
            reserve: (p.reserve - spec_burn_amount(p.reserve)) as u64,
            last_burn_timestamp: now,
        }
    } else {
        p
    }
}

/// Applies the time-gated burn to the pool record.
pub fn apply_burn(p: &mut LiquidityPool, now: i64)
    ensures
        final(p)@ == spec_apply_burn(old(p)@, now),
{
    let elapsed: i128 = (now as i128) - (p.last_burn_timestamp as i128);
    if elapsed >= BURN_INTERVAL_SECONDS as i128 {
        let burn_amount = fraction_of(p.reserve, BURN_NUMERATOR, BURN_DENOMINATOR);
        p.reserve = p.reserve - burn_amount;
        p.last_burn_timestamp = now;
    }
}

/// Lazy initialization of the whale record: while no holder is recorded
/// (the all-zero address), the whale account's own address is recorded
/// with a largest purchase of zero.
pub open spec fn spec_init_whale(w: WhaleView, whale_account: Seq<u8>) -> WhaleView {
    if w.is_initialized() {
        w
    } else {
        WhaleView { kingwhale_account: whale_account, largest_purchase: 0 }
    }
}

/// Lazily initializes the whale record.
pub fn init_whale(w: &mut KingWhale, whale_account: &Vec<u8>)
    requires
        old(w)@.wf(),
        is_address(whale_account@),
    ensures
        final(w)@ == spec_init_whale(old(w)@, whale_account@),
        final(w)@.wf(),
{
    if !w.is_initialized() {
        w.kingwhale_account = whale_account.clone();
        w.largest_purchase = 0;
        assert(w@ =~= spec_init_whale(old(w)@, whale_account@));
    }
}

/// Whale tracking: only a purchase strictly larger than the recorded
/// largest one replaces the record; an equal purchase changes nothing.
pub open spec fn spec_update_whale(w: WhaleView, sender: Seq<u8>, amount: u64) -> WhaleView {
    if amount > w.largest_purchase {
        WhaleView { kingwhale_account: sender, largest_purchase: amount }
    } else {
        w
    }
}

/// Applies whale tracking for one observed purchase.
pub fn update_whale(w: &mut KingWhale, sender: &Vec<u8>, amount: u64)
    requires
        old(w)@.wf(),
        is_address(sender@),
    ensures
        final(w)@ == spec_update_whale(old(w)@, sender@, amount),
        final(w)@.wf(),
{
    if amount > w.largest_purchase {
        w.kingwhale_account = sender.clone();
        w.largest_purchase = amount;
        assert(w@ =~= spec_update_whale(old(w)@, sender@, amount));
    }
}

/// The whale reset a taxed transfer performs: when the sender is the
/// recorded holder, the tracked amount is replaced by this transfer's
/// amount; the holder address stays.
pub open spec fn spec_transfer_whale(w: WhaleView, sender: Seq<u8>, amount: u64) -> WhaleView {
    if w.kingwhale_account == sender {
        WhaleView { kingwhale_account: w.kingwhale_account, largest_purchase: amount }
    } else {
        w
    }
}

/// Addition that stops at the largest 64-bit value.
pub open spec fn sat_add(a: u64, b: u64) -> u64 {
    if a + b <= u64::MAX {
        (a + b) as u64
    } else {
        u64::MAX
    }
}

/// Subtraction that stops at zero.
pub open spec fn sat_sub(a: u64, b: u64) -> u64 {
    if a >= b {
        (a - b) as u64
    } else {
        0
    }
}

/// A successful buy's effect on the pool: the reserve shrinks by the
/// amount bought.
pub open spec fn spec_buy_pool(p: crate::records::PoolView, amount: u64) -> crate::records::PoolView
    recommends
        amount <= p.reserve,
{
    crate::records::PoolView {
        is_initialized: p.is_initialized,
        reserve: (p.reserve - amount) as u64,
        last_burn_timestamp: p.last_burn_timestamp,
    }
}

/// Crediting a token record with freshly unlocked supply.
pub open spec fn spec_credit_supply(t: TokenView, amount: u64) -> TokenView {
    TokenView { unlocked_supply: sat_add(t.unlocked_supply, amount), ..t }
}

/// A buy order against the pool and the global supply counters: it fails
/// with [`TokenError::InsufficientLiquidity`] exactly when the amount
/// exceeds the reserve, and then changes nothing; otherwise the reserve
/// shrinks and the global unlocked supply grows by the amount.
pub fn buy_from_pool(p: &mut LiquidityPool, t: &mut AresToken, amount: u64) -> (r: Result<
    (),
    crate::TokenError,
>)
    ensures
        amount > old(p)@.reserve ==> r == Err::<(), crate::TokenError>(
            crate::TokenError::InsufficientLiquidity,
        ) && final(p)@ == old(p)@ && final(t)@ == old(t)@,
        amount <= old(p)@.reserve ==> r == Ok::<(), crate::TokenError>(()) && final(p)@
            == spec_buy_pool(old(p)@, amount) && final(t)@ == spec_credit_supply(old(t)@, amount),
{
    if amount > p.reserve {
        return Err(crate::TokenError::InsufficientLiquidity);
    }
    p.reserve = p.reserve - amount;
    t.unlocked_supply = t.unlocked_supply.saturating_add(amount);
    assert(t@ =~= spec_credit_supply(old(t)@, amount));
    Ok(())
}

/// Credits a buyer's own token record, initializing it first if it has
/// never been touched.
pub fn credit_buyer(t: &mut AresToken, amount: u64)
    ensures
        final(t)@ == spec_credit_supply(spec_init_user_token(old(t)@), amount),
{
    init_user_token(t);
    t.unlocked_supply = t.unlocked_supply.saturating_add(amount);
    assert(t@ =~= spec_credit_supply(spec_init_user_token(old(t)@), amount));
}

/// The tax on a transfer: a flat 5%, rounded down.
pub open spec fn spec_tax_amount(amount: u64) -> u64 {
    spec_fraction(amount, TAX_NUMERATOR, TAX_DENOMINATOR)
}

/// Computes the transfer tax.
pub fn tax_amount(amount: u64) -> (r: u64)
    ensures
        r == spec_tax_amount(amount),
        r <= amount,
{
    fraction_of(amount, TAX_NUMERATOR, TAX_DENOMINATOR)
}

/// A taxed transfer's effect on the global supply counter: both the
/// transfer amount and the tax leave the unlocked supply, stopping at
/// zero.
pub open spec fn spec_deduct_supply(t: TokenView, amount: u64) -> TokenView {
    TokenView {
        unlocked_supply: sat_sub(sat_sub(t.unlocked_supply, amount), spec_tax_amount(amount)),
        ..t
    }
}

/// Deducts a transfer's amount and tax from the global unlocked supply.
pub fn deduct_supply(t: &mut AresToken, amount: u64)
    ensures
        final(t)@ == spec_deduct_supply(old(t)@, amount),
{
    let tax = tax_amount(amount);
    t.unlocked_supply = t.unlocked_supply.saturating_sub(amount).saturating_sub(tax);
    assert(t@ =~= spec_deduct_supply(old(t)@, amount));
}

/// A taxed transfer's effect on the sender's own record: the amount
/// leaves its unlocked balance, stopping at zero.  This bookkeeping is
/// deliberately independent of the global counter.
pub open spec fn spec_debit_sender(t: TokenView, amount: u64) -> TokenView {
    TokenView { unlocked_supply: sat_sub(t.unlocked_supply, amount), ..t }
}

/// Debits the sender's own token record.
pub fn debit_sender(t: &mut AresToken, amount: u64)
    ensures
        final(t)@ == spec_debit_sender(old(t)@, amount),
{
    t.unlocked_supply = t.unlocked_supply.saturating_sub(amount);
    assert(t@ =~= spec_debit_sender(old(t)@, amount));
}

/// A taxed transfer's effect on the recipient's own record: the amount
/// joins its unlocked balance, saturating at the largest value.
pub open spec fn spec_credit_recipient(t: TokenView, amount: u64) -> TokenView {
    spec_credit_supply(t, amount)
}

/// Credits the recipient's own token record.
pub fn credit_recipient(t: &mut AresToken, amount: u64)
    ensures
        final(t)@ == spec_credit_recipient(old(t)@, amount),
{
    t.unlocked_supply = t.unlocked_supply.saturating_add(amount);
    assert(t@ =~= spec_credit_recipient(old(t)@, amount));
}

/// The burn boundary: with exactly one second less than the interval
/// elapsed, nothing changes; with exactly the interval elapsed, the
/// reserve loses 0.25% rounded down and the burn clock resets to now.
pub proof fn lemma_burn_boundary(p: crate::records::PoolView, now: i64)
    ensures
        spec_elapsed(now, p.last_burn_timestamp) == BURN_INTERVAL_SECONDS - 1 ==> spec_apply_burn(
            p,
            now,
        ) == p,
        spec_elapsed(now, p.last_burn_timestamp) == BURN_INTERVAL_SECONDS ==> spec_apply_burn(
            p,
            now,
        ) == (crate::records::PoolView {
            is_initialized: p.is_initialized,
            reserve: (p.reserve - spec_burn_amount(p.reserve)) as u64,
            last_burn_timestamp: now,
        }),
{
}

/// Whale tracking is strict: a purchase equal to the recorded largest
/// amount changes nothing, and only a strictly larger one replaces the
/// record.
pub proof fn lemma_whale_strictness(w: WhaleView, sender: Seq<u8>, amount: u64)
    ensures
        amount <= w.largest_purchase ==> spec_update_whale(w, sender, amount) == w,
        amount > w.largest_purchase ==> spec_update_whale(w, sender, amount) == (WhaleView {
            kingwhale_account: sender,
            largest_purchase: amount,
        }),
{
}

/// Pool genesis happens exactly once: genesis sets the reserve to 20% of
/// the total supply, rounded down, and a second invocation within the
/// burn interval changes neither the reserve nor the burn clock.
pub proof fn lemma_pool_genesis_once(
    p: crate::records::PoolView,
    total_supply: u64,
    now1: i64,
    total2: u64,
    now2: i64,
)
    requires
        !p.is_initialized,
        spec_elapsed(now2, spec_init_pool(p, total_supply, now1).last_burn_timestamp)
            < BURN_INTERVAL_SECONDS,
    ensures
        spec_init_pool(p, total_supply, now1).reserve == spec_fraction(
            total_supply,
            RESERVE_NUMERATOR,
            RESERVE_DENOMINATOR,
        ),
        spec_apply_burn(
            spec_init_pool(spec_init_pool(p, total_supply, now1), total2, now2),
            now2,
        ) == spec_init_pool(p, total_supply, now1),
{
}

} // verus!
