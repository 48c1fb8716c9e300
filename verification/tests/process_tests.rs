//! End-to-end tests of whole invocations over byte buffers.

use arestoken::codec::{decode_pool, decode_token, decode_wallets, decode_whale};
use arestoken::process::{process_invocation, AccountIn, Invocation};
use arestoken::{DecodeError, TokenError};

const TOTAL: u64 = 40_000_000_000_000;
const RESERVE: u64 = 8_000_000_000_000;

fn addr(b: u8) -> Vec<u8> {
    vec![b; 32]
}

fn pid() -> Vec<u8> {
    addr(0xAA)
}

fn acct(address: Vec<u8>, owner: Vec<u8>, is_signer: bool, data: Vec<u8>) -> AccountIn {
    AccountIn { address, owner, is_signer, data }
}

/// A fresh request: zeroed buffers, every optional account absent.
fn base_inv(now: i64) -> Invocation {
    Invocation {
        program_id: pid(),
        token: acct(addr(1), pid(), false, vec![0; 29]),
        rent_exempt: true,
        blacklist: acct(addr(2), pid(), false, vec![0; 33]),
        pool: acct(addr(3), pid(), false, vec![0; 17]),
        now,
        whale: acct(addr(4), pid(), false, vec![0; 40]),
        whale_signer: None,
        buyer: None,
        sender: None,
        recipient: None,
        wallets: None,
        marketing: None,
        staff: None,
        payload: Vec::new(),
    }
}

#[test]
fn genesis_invocation_mints_and_seeds_the_pool() {
    let (out, r) = process_invocation(base_inv(1000));
    assert_eq!(r, Ok(()));
    let t = decode_token(&out.token.data).unwrap();
    assert!(t.is_initialized);
    assert_eq!(t.total_supply, TOTAL);
    assert_eq!(t.unlocked_supply, 0);
    assert_eq!(t.locked_supply, TOTAL);
    assert_eq!(t.symbol, b"ARES".to_vec());
    let p = decode_pool(&out.pool.data).unwrap();
    assert!(p.is_initialized);
    assert_eq!(p.reserve, RESERVE);
    assert_eq!(p.last_burn_timestamp, 1000);
    // The whale record was lazily initialized to the whale account's own
    // address.
    let w = decode_whale(&out.whale.data).unwrap();
    assert_eq!(w.kingwhale_account, addr(4));
    assert_eq!(w.largest_purchase, 0);
}

#[test]
fn pool_genesis_happens_exactly_once() {
    let (out1, r1) = process_invocation(base_inv(1000));
    assert_eq!(r1, Ok(()));
    // A second invocation within the same hour changes neither the
    // reserve nor the burn clock.
    let mut inv2 = base_inv(1000 + 3599);
    inv2.token.data = out1.token.data.clone();
    inv2.pool.data = out1.pool.data.clone();
    inv2.whale.data = out1.whale.data.clone();
    let (out2, r2) = process_invocation(inv2);
    assert_eq!(r2, Ok(()));
    let p = decode_pool(&out2.pool.data).unwrap();
    assert_eq!(p.reserve, RESERVE);
    assert_eq!(p.last_burn_timestamp, 1000);
}

#[test]
fn burn_fires_exactly_at_the_hour() {
    let (out1, _) = process_invocation(base_inv(1000));
    let mut inv2 = base_inv(1000 + 3600);
    inv2.token.data = out1.token.data.clone();
    inv2.pool.data = out1.pool.data.clone();
    inv2.whale.data = out1.whale.data.clone();
    let (out2, r2) = process_invocation(inv2);
    assert_eq!(r2, Ok(()));
    let p = decode_pool(&out2.pool.data).unwrap();
    // 0.25% of the reserve, rounded down.
    assert_eq!(p.reserve, RESERVE - 20_000_000_000);
    assert_eq!(p.last_burn_timestamp, 4600);
}

#[test]
fn blacklisted_account_fails_after_genesis_write() {
    let mut inv = base_inv(1000);
    let mut banned = vec![1u8];
    banned.extend_from_slice(&addr(1));
    inv.blacklist.data = banned;
    let (out, r) = process_invocation(inv);
    assert_eq!(r, Err(TokenError::Blacklisted));
    // The token record's genesis shape was already written...
    let t = decode_token(&out.token.data).unwrap();
    assert!(t.is_initialized);
    assert_eq!(t.total_supply, TOTAL);
    // ...but no economic mutation happened: the pool buffer is untouched.
    assert_eq!(out.pool.data, vec![0; 17]);
    assert_eq!(out.whale.data, vec![0; 40]);
}

#[test]
fn blacklist_must_match_exactly() {
    let mut inv = base_inv(1000);
    let mut banned = vec![1u8];
    banned.extend_from_slice(&addr(99));
    inv.blacklist.data = banned;
    let (_, r) = process_invocation(inv);
    assert_eq!(r, Ok(()));
}

#[test]
fn uninitialized_blacklist_bans_nobody() {
    let mut inv = base_inv(1000);
    let mut banned = vec![0u8];
    banned.extend_from_slice(&addr(1));
    inv.blacklist.data = banned;
    let (_, r) = process_invocation(inv);
    assert_eq!(r, Ok(()));
}

#[test]
fn wrong_token_owner_fails_before_any_write() {
    let mut inv = base_inv(1000);
    inv.token.owner = addr(0xBB);
    let (out, r) = process_invocation(inv);
    assert_eq!(r, Err(TokenError::WrongOwner));
    assert_eq!(out.token.data, vec![0; 29]);
}

#[test]
fn wrong_pool_owner_fails_after_token_write() {
    let mut inv = base_inv(1000);
    inv.pool.owner = addr(0xBB);
    let (out, r) = process_invocation(inv);
    assert_eq!(r, Err(TokenError::WrongOwner));
    assert!(decode_token(&out.token.data).unwrap().is_initialized);
    assert_eq!(out.pool.data, vec![0; 17]);
}

#[test]
fn not_rent_exempt_fails() {
    let mut inv = base_inv(1000);
    inv.rent_exempt = false;
    let (out, r) = process_invocation(inv);
    assert_eq!(r, Err(TokenError::NotRentExempt));
    assert_eq!(out.token.data, vec![0; 29]);
}

#[test]
fn short_token_buffer_fails() {
    let mut inv = base_inv(1000);
    inv.token.data = vec![0; 28];
    let (_, r) = process_invocation(inv);
    assert_eq!(r, Err(TokenError::Decode(DecodeError::TooShort)));
}

#[test]
fn malformed_token_flag_fails() {
    let mut inv = base_inv(1000);
    inv.token.data[0] = 2;
    let (_, r) = process_invocation(inv);
    assert_eq!(r, Err(TokenError::Decode(DecodeError::Malformed)));
}

#[test]
fn buy_moves_reserve_into_buyer_wallet() {
    let mut inv = base_inv(1000);
    inv.buyer = Some(acct(addr(5), pid(), true, vec![0; 29]));
    inv.payload = 5000u64.to_le_bytes().to_vec();
    let (out, r) = process_invocation(inv);
    assert_eq!(r, Ok(()));
    let p = decode_pool(&out.pool.data).unwrap();
    assert_eq!(p.reserve, RESERVE - 5000);
    let t = decode_token(&out.token.data).unwrap();
    assert_eq!(t.unlocked_supply, 5000);
    let b = decode_token(&out.buyer.unwrap().data).unwrap();
    assert!(b.is_initialized);
    assert_eq!(b.total_supply, 0);
    assert_eq!(b.unlocked_supply, 5000);
}

#[test]
fn buy_without_signature_is_skipped() {
    let mut inv = base_inv(1000);
    inv.buyer = Some(acct(addr(5), pid(), false, vec![0; 29]));
    inv.payload = 5000u64.to_le_bytes().to_vec();
    let (out, r) = process_invocation(inv);
    assert_eq!(r, Ok(()));
    assert_eq!(decode_pool(&out.pool.data).unwrap().reserve, RESERVE);
    assert_eq!(out.buyer.unwrap().data, vec![0; 29]);
}

#[test]
fn buy_beyond_reserve_fails_and_leaves_balances() {
    let mut inv = base_inv(1000);
    inv.buyer = Some(acct(addr(5), pid(), true, vec![0; 29]));
    inv.payload = (RESERVE + 1).to_le_bytes().to_vec();
    let (out, r) = process_invocation(inv);
    assert_eq!(r, Err(TokenError::InsufficientLiquidity));
    // The pool keeps its freshly seeded reserve and the supply counter
    // its genesis value.
    assert_eq!(decode_pool(&out.pool.data).unwrap().reserve, RESERVE);
    assert_eq!(decode_token(&out.token.data).unwrap().unlocked_supply, 0);
    assert_eq!(out.buyer.unwrap().data, vec![0; 29]);
}

#[test]
fn whale_updates_only_on_strictly_larger_purchases() {
    // First purchase: 100 becomes the record.
    let mut inv = base_inv(1000);
    inv.whale_signer = Some(acct(addr(6), pid(), true, Vec::new()));
    inv.payload = 100u64.to_le_bytes().to_vec();
    let (out1, r1) = process_invocation(inv);
    assert_eq!(r1, Ok(()));
    let w1 = decode_whale(&out1.whale.data).unwrap();
    assert_eq!(w1.kingwhale_account, addr(6));
    assert_eq!(w1.largest_purchase, 100);
    // An equal purchase from someone else changes nothing.
    let mut inv2 = base_inv(1001);
    inv2.token.data = out1.token.data.clone();
    inv2.pool.data = out1.pool.data.clone();
    inv2.whale.data = out1.whale.data.clone();
    inv2.whale_signer = Some(acct(addr(7), pid(), true, Vec::new()));
    inv2.payload = 100u64.to_le_bytes().to_vec();
    let (out2, r2) = process_invocation(inv2);
    assert_eq!(r2, Ok(()));
    let w2 = decode_whale(&out2.whale.data).unwrap();
    assert_eq!(w2.kingwhale_account, addr(6));
    assert_eq!(w2.largest_purchase, 100);
    // A strictly larger one replaces it.
    let mut inv3 = base_inv(1002);
    inv3.token.data = out2.token.data.clone();
    inv3.pool.data = out2.pool.data.clone();
    inv3.whale.data = out2.whale.data.clone();
    inv3.whale_signer = Some(acct(addr(7), pid(), true, Vec::new()));
    inv3.payload = 101u64.to_le_bytes().to_vec();
    let (out3, r3) = process_invocation(inv3);
    assert_eq!(r3, Ok(()));
    let w3 = decode_whale(&out3.whale.data).unwrap();
    assert_eq!(w3.kingwhale_account, addr(7));
    assert_eq!(w3.largest_purchase, 101);
}

/// A request whose payload asks to buy and then transfer `amount`, with
/// the given unlock date.
fn transfer_inv(now: i64, amount: u64, unlock_date: i64) -> Invocation {
    let mut inv = base_inv(now);
    inv.buyer = Some(acct(addr(5), pid(), true, vec![0; 29]));
    inv.sender = Some(acct(addr(5), pid(), true, vec![0; 29]));
    inv.recipient = Some(acct(addr(8), pid(), true, vec![0; 29]));
    inv.wallets = Some(acct(addr(9), pid(), false, vec![0; 64]));
    inv.marketing = Some(addr(10));
    inv.staff = Some(addr(11));
    let mut payload = amount.to_le_bytes().to_vec();
    payload.extend_from_slice(&(unlock_date as u64).to_le_bytes());
    payload.extend_from_slice(&[0u8; 8]);
    inv.payload = payload;
    inv
}

#[test]
fn transfer_with_unlock_date_equal_to_now_proceeds() {
    let (out, r) = process_invocation(transfer_inv(1000, 1000, 1000));
    assert_eq!(r, Ok(()));
    // The buy unlocked 1000; the transfer and its 5% tax then left the
    // global counter, stopping at zero.
    assert_eq!(decode_token(&out.token.data).unwrap().unlocked_supply, 0);
    let rcp = decode_token(&out.recipient.unwrap().data).unwrap();
    assert_eq!(rcp.unlocked_supply, 1000);
    let wl = decode_wallets(&out.wallets.unwrap().data).unwrap();
    assert_eq!(wl.marketing_wallet, addr(10));
    assert_eq!(wl.staff_wallet, addr(11));
}

#[test]
fn transfer_one_second_in_the_future_is_still_locked() {
    let (out, r) = process_invocation(transfer_inv(1000, 1000, 1001));
    assert_eq!(r, Err(TokenError::StillLocked));
    // The buy before the transfer went through; the transfer wrote
    // nothing.
    assert_eq!(decode_token(&out.token.data).unwrap().unlocked_supply, 1000);
    assert_eq!(out.recipient.unwrap().data, vec![0; 29]);
    assert_eq!(out.wallets.unwrap().data, vec![0; 64]);
}

#[test]
fn transfer_beyond_unlocked_supply_fails() {
    let mut inv = transfer_inv(1000, 1000, 1000);
    // Without the buy, nothing is unlocked yet.
    inv.buyer = None;
    let (out, r) = process_invocation(inv);
    assert_eq!(r, Err(TokenError::InsufficientUnlocked));
    assert_eq!(out.recipient.unwrap().data, vec![0; 29]);
}

#[test]
fn transfer_needs_the_wallets_account() {
    let mut inv = transfer_inv(1000, 1000, 1000);
    inv.wallets = None;
    let (_, r) = process_invocation(inv);
    assert_eq!(r, Err(TokenError::MissingAccount));
}

#[test]
fn untouched_wallets_record_needs_both_distribution_addresses() {
    let mut inv = transfer_inv(1000, 1000, 1000);
    inv.staff = None;
    let (out, r) = process_invocation(inv);
    assert_eq!(r, Err(TokenError::MissingAccount));
    assert_eq!(out.wallets.unwrap().data, vec![0; 64]);
}

#[test]
fn initialized_wallets_record_is_immutable() {
    let mut inv = transfer_inv(1000, 1000, 1000);
    let mut wallets_data = addr(20);
    wallets_data.extend_from_slice(&addr(21));
    inv.wallets = Some(acct(addr(9), pid(), false, wallets_data));
    inv.marketing = Some(addr(10));
    inv.staff = Some(addr(11));
    let (out, r) = process_invocation(inv);
    assert_eq!(r, Ok(()));
    let wl = decode_wallets(&out.wallets.unwrap().data).unwrap();
    assert_eq!(wl.marketing_wallet, addr(20));
    assert_eq!(wl.staff_wallet, addr(21));
}

#[test]
fn whale_holding_is_replaced_when_the_whale_sends() {
    // Make the sender the recorded whale with a 5000 purchase.
    let mut inv1 = base_inv(1000);
    inv1.whale_signer = Some(acct(addr(5), pid(), true, Vec::new()));
    inv1.payload = 5000u64.to_le_bytes().to_vec();
    let (out1, r1) = process_invocation(inv1);
    assert_eq!(r1, Ok(()));
    assert_eq!(decode_whale(&out1.whale.data).unwrap().largest_purchase, 5000);
    // Now the whale transfers 1000: the tracked amount is replaced, not
    // accumulated.
    let mut inv2 = transfer_inv(2000, 1000, 2000);
    inv2.token.data = out1.token.data.clone();
    inv2.pool.data = out1.pool.data.clone();
    inv2.whale.data = out1.whale.data.clone();
    let (out2, r2) = process_invocation(inv2);
    assert_eq!(r2, Ok(()));
    let w = decode_whale(&out2.whale.data).unwrap();
    assert_eq!(w.kingwhale_account, addr(5));
    assert_eq!(w.largest_purchase, 1000);
}

#[test]
fn sender_record_is_debited_and_stops_at_zero() {
    let (out, r) = process_invocation(transfer_inv(1000, 1000, 999));
    assert_eq!(r, Ok(()));
    // The sender's own zeroed record had nothing to give; its balance
    // stays at zero rather than wrapping.
    let snd = decode_token(&out.sender.unwrap().data).unwrap();
    assert_eq!(snd.unlocked_supply, 0);
}

#[test]
fn genesis_mint_happens_exactly_once() {
    let (out1, _) = process_invocation(base_inv(1000));
    let mut inv2 = base_inv(1500);
    inv2.token.data = out1.token.data.clone();
    inv2.pool.data = out1.pool.data.clone();
    inv2.whale.data = out1.whale.data.clone();
    let (out2, r2) = process_invocation(inv2);
    assert_eq!(r2, Ok(()));
    assert_eq!(out2.token.data, out1.token.data);
}

#[test]
fn short_payload_skips_whale_and_buy() {
    let mut inv = base_inv(1000);
    inv.whale_signer = Some(acct(addr(6), pid(), true, Vec::new()));
    inv.buyer = Some(acct(addr(5), pid(), true, vec![0; 29]));
    inv.payload = vec![1, 2, 3, 4, 5, 6, 7];
    let (out, r) = process_invocation(inv);
    assert_eq!(r, Ok(()));
    assert_eq!(decode_whale(&out.whale.data).unwrap().largest_purchase, 0);
    assert_eq!(decode_pool(&out.pool.data).unwrap().reserve, RESERVE);
    assert_eq!(out.buyer.unwrap().data, vec![0; 29]);
}

#[test]
fn unsigned_transfer_is_skipped() {
    let mut inv = transfer_inv(1000, 1000, 1000);
    if let Some(r) = inv.recipient.as_mut() {
        r.is_signer = false;
    }
    let (out, r) = process_invocation(inv);
    assert_eq!(r, Ok(()));
    // The buy still ran; the transfer did not.
    assert_eq!(decode_token(&out.token.data).unwrap().unlocked_supply, 1000);
    assert_eq!(out.recipient.unwrap().data, vec![0; 29]);
    assert_eq!(out.wallets.unwrap().data, vec![0; 64]);
}

#[test]
fn buffers_longer_than_a_record_keep_their_tail() {
    let mut inv = base_inv(1000);
    inv.token.data = vec![0; 29];
    inv.token.data.extend_from_slice(&[0xEE; 3]);
    let (out, r) = process_invocation(inv);
    assert_eq!(r, Ok(()));
    assert_eq!(&out.token.data[29..], &[0xEE; 3]);
    assert_eq!(decode_token(&out.token.data).unwrap().total_supply, TOTAL);
}
