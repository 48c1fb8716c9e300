//! The orchestrator: one invocation, one state transition.
//!
//! The caller supplies a typed request: the account buffers in their
//! fixed positional roles, the signer flags, the rent-exemption verdict
//! and the current time.  The pipeline runs validation, genesis mint,
//! blacklist check, pool genesis and burn, whale tracking, buy, and taxed
//! transfer, in that fixed order, short-circuiting on the first failure.
//! Buffers written by earlier steps stay written when a later step fails;
//! there is no rollback.
//!
//! The whole transition is pinned down by [`spec_process`], a
//! specification-level interpreter of the pipeline, phrased over the
//! per-phase specification functions below; the executable code is
//! verified to agree with it on every input.

use vstd::bytes::{spec_u64_from_le_bytes, u64_from_le_bytes};
use vstd::prelude::*;
use vstd::slice::slice_subrange;

use crate::codec::{
    blacklist_decodes, decode_blacklist, decode_pool, decode_token, decode_wallets, decode_whale,
    encode_pool, encode_token, encode_wallets, encode_whale, parse_blacklist, parse_pool,
    parse_token, parse_wallets, parse_whale, pool_bytes, pool_decodes, spec_i64_from_le_bytes,
    token_bytes, token_decodes, wallets_bytes, wallets_decodes, whale_bytes, whale_decodes,
    BLACKLIST_LEN, POOL_LEN, TOKEN_LEN, WALLETS_LEN, WHALE_LEN,
};
use crate::engine::{
    apply_burn, buy_from_pool, credit_buyer, credit_recipient, debit_sender, deduct_supply,
    init_pool, init_token, init_whale, spec_apply_burn, spec_buy_pool, spec_credit_recipient,
    spec_credit_supply, spec_debit_sender, spec_deduct_supply, spec_init_pool, spec_init_token,
    spec_init_user_token, spec_init_whale, spec_transfer_whale, spec_update_whale, update_whale,
};
use crate::records::{
    bytes_eq, is_address, AresToken, KingWhale, LiquidityPool, TokenView, Wallets, WalletsView,
    WhaleView,
};
use crate::{DecodeError, TokenError};

verus! {

/// One account as the hosting runtime hands it over: its address, its
/// recorded owner, whether it signed this call, and its record buffer.
#[derive(Debug, Clone, PartialEq, Eq)]
pub struct AccountIn {
    pub address: Vec<u8>,
    pub owner: Vec<u8>,
    pub is_signer: bool,
    pub data: Vec<u8>,
}

/// Mathematical view of an [`AccountIn`].
#[verifier::ext_equal]
pub struct AccountView {
    pub address: Seq<u8>,
    pub owner: Seq<u8>,
    pub is_signer: bool,
    pub data: Seq<u8>,
}

impl View for AccountIn {
    type V = AccountView;

    open spec fn view(&self) -> AccountView {
        AccountView {
            address: self.address@,
            owner: self.owner@,
            is_signer: self.is_signer,
            data: self.data@,
        }
    }
}

/// An account is well formed when its address and owner have the fixed
/// address width.
pub open spec fn account_wf(a: AccountView) -> bool {
    is_address(a.address) && is_address(a.owner)
}

/// The view of an optional account.
pub open spec fn opt_account_view(o: Option<AccountIn>) -> Option<AccountView> {
    match o {
        Some(a) => Some(a@),
        None => None,
    }
}

/// The view of an optional bare address.
pub open spec fn opt_addr_view(o: Option<Vec<u8>>) -> Option<Seq<u8>> {
    match o {
        Some(a) => Some(a@),
        None => None,
    }
}

/// The buffer of an optional account, if the account is there.
pub open spec fn opt_data(a: Option<AccountView>) -> Option<Seq<u8>> {
    match a {
        Some(x) => Some(x.data),
        None => None,
    }
}

/// One invocation's typed request: every account in its fixed positional
/// role, the instruction payload, and the externally supplied oracles
/// (the rent-exemption verdict and the current time).  The trailing
/// accounts are optional; a step that needs one that is absent either
/// skips silently or fails with [`TokenError::MissingAccount`], exactly
/// as the contract states.
#[derive(Debug, Clone)]
pub struct Invocation {
    /// The invoking program's own identity.
    pub program_id: Vec<u8>,
    /// The acting token account.
    pub token: AccountIn,
    /// The externally computed rent-exemption verdict for the token
    /// account.
    pub rent_exempt: bool,
    /// The blacklist account.
    pub blacklist: AccountIn,
    /// The liquidity pool account.
    pub pool: AccountIn,
    /// The current time, from the hosting runtime's clock.
    pub now: i64,
    /// The whale-record account.
    pub whale: AccountIn,
    /// The whale-update signer, if supplied.
    pub whale_signer: Option<AccountIn>,
    /// The buy signer, whose own token record receives what is bought.
    pub buyer: Option<AccountIn>,
    /// The taxed transfer's sender.
    pub sender: Option<AccountIn>,
    /// The taxed transfer's recipient.
    pub recipient: Option<AccountIn>,
    /// The tax-distribution wallets account.
    pub wallets: Option<AccountIn>,
    /// The marketing address adopted if the wallets record is untouched.
    pub marketing: Option<Vec<u8>>,
    /// The staff address adopted if the wallets record is untouched.
    pub staff: Option<Vec<u8>>,
    /// The opaque instruction payload.
    pub payload: Vec<u8>,
}

/// Mathematical view of an [`Invocation`].
#[verifier::ext_equal]
pub struct InvocationView {
    pub program_id: Seq<u8>,
    pub token: AccountView,
    pub rent_exempt: bool,
    pub blacklist: AccountView,
    pub pool: AccountView,
    pub now: i64,
    pub whale: AccountView,
    pub whale_signer: Option<AccountView>,
    pub buyer: Option<AccountView>,
    pub sender: Option<AccountView>,
    pub recipient: Option<AccountView>,
    pub wallets: Option<AccountView>,
    pub marketing: Option<Seq<u8>>,
    pub staff: Option<Seq<u8>>,
    pub payload: Seq<u8>,
}

impl View for Invocation {
    type V = InvocationView;

    open spec fn view(&self) -> InvocationView {
        InvocationView {
            program_id: self.program_id@,
            token: self.token@,
            rent_exempt: self.rent_exempt,
            blacklist: self.blacklist@,
            pool: self.pool@,
            now: self.now,
            whale: self.whale@,
            whale_signer: opt_account_view(self.whale_signer),
            buyer: opt_account_view(self.buyer),
            sender: opt_account_view(self.sender),
            recipient: opt_account_view(self.recipient),
            wallets: opt_account_view(self.wallets),
            marketing: opt_addr_view(self.marketing),
            staff: opt_addr_view(self.staff),
            payload: self.payload@,
        }
    }
}

/// Whether an optional account is well formed.
pub open spec fn opt_account_wf(a: Option<AccountView>) -> bool {
    match a {
        Some(x) => account_wf(x),
        None => true,
    }
}

/// Whether an optional address has the fixed address width.
pub open spec fn opt_addr_wf(a: Option<Seq<u8>>) -> bool {
    match a {
        Some(x) => is_address(x),
        None => true,
    }
}

/// A request is well formed when every address and owner it carries has
/// the fixed address width; the hosting runtime's key type guarantees
/// this by construction.
pub open spec fn inv_wf(v: InvocationView) -> bool {
    &&& is_address(v.program_id)
    &&& account_wf(v.token)
    &&& account_wf(v.blacklist)
    &&& account_wf(v.pool)
    &&& account_wf(v.whale)
    &&& opt_account_wf(v.whale_signer)
    &&& opt_account_wf(v.buyer)
    &&& opt_account_wf(v.sender)
    &&& opt_account_wf(v.recipient)
    &&& opt_account_wf(v.wallets)
    &&& opt_addr_wf(v.marketing)
    &&& opt_addr_wf(v.staff)
}

/// A buffer with a freshly encoded record in its first `len` bytes and
/// its tail untouched.
pub open spec fn overwrite(data: Seq<u8>, rec: Seq<u8>, len: int) -> Seq<u8> {
    rec + data.skip(len)
}

/// The decode error a token-record buffer produces.
pub open spec fn token_decode_err(s: Seq<u8>) -> DecodeError {
    if s.len() < TOKEN_LEN {
        DecodeError::TooShort
    } else {
        DecodeError::Malformed
    }
}

/// The decode error a pool-record buffer produces.
pub open spec fn pool_decode_err(s: Seq<u8>) -> DecodeError {
    if s.len() < POOL_LEN {
        DecodeError::TooShort
    } else {
        DecodeError::Malformed
    }
}

/// The decode error a blacklist-record buffer produces.
pub open spec fn blacklist_decode_err(s: Seq<u8>) -> DecodeError {
    if s.len() < BLACKLIST_LEN {
        DecodeError::TooShort
    } else {
        DecodeError::Malformed
    }
}

/// Validation and genesis: owner check, rent check, token decode, lazy
/// genesis mint, token write-back, then the blacklist gate.  Returns the
/// token buffer after the phase and either the live token record or the
/// error that aborts the invocation.  The genesis write happens before
/// the blacklist gate, so a blacklisted account still gets its record
/// shape written.
pub open spec fn spec_prelude(
    program_id: Seq<u8>,
    token_addr: Seq<u8>,
    token_owner: Seq<u8>,
    token_data: Seq<u8>,
    rent_exempt: bool,
    blacklist_data: Seq<u8>,
) -> (Seq<u8>, Result<TokenView, TokenError>) {
    if token_owner != program_id {
        (token_data, Err(TokenError::WrongOwner))
    } else if !rent_exempt {
        (token_data, Err(TokenError::NotRentExempt))
    } else if !token_decodes(token_data) {
        (token_data, Err(TokenError::Decode(token_decode_err(token_data))))
    } else {
        let t = spec_init_token(parse_token(token_data));
        let written = overwrite(token_data, token_bytes(t), TOKEN_LEN as int);
        if !blacklist_decodes(blacklist_data) {
            (written, Err(TokenError::Decode(blacklist_decode_err(blacklist_data))))
        } else if parse_blacklist(blacklist_data).bans(token_addr) {
            (written, Err(TokenError::Blacklisted))
        } else {
            (written, Ok(t))
        }
    }
}

/// The pool phase: owner check, pool decode, lazy pool genesis, the
/// time-gated burn, and the pool write-back.
pub open spec fn spec_pool_phase(
    program_id: Seq<u8>,
    pool_owner: Seq<u8>,
    pool_data: Seq<u8>,
    total_supply: u64,
    now: i64,
) -> (Seq<u8>, Result<crate::records::PoolView, TokenError>) {
    if pool_owner != program_id {
        (pool_data, Err(TokenError::WrongOwner))
    } else if !pool_decodes(pool_data) {
        (pool_data, Err(TokenError::Decode(pool_decode_err(pool_data))))
    } else {
        let p = spec_apply_burn(spec_init_pool(parse_pool(pool_data), total_supply, now), now);
        (overwrite(pool_data, pool_bytes(p), POOL_LEN as int), Ok(p))
    }
}

/// The whale phase: whale decode, lazy initialization to the whale
/// account's own address, the strictly-larger-purchase update when a
/// signer and a long-enough payload are supplied, and the write-back.
pub open spec fn spec_whale_phase(
    whale_addr: Seq<u8>,
    whale_data: Seq<u8>,
    whale_signer: Option<AccountView>,
    payload: Seq<u8>,
) -> (Seq<u8>, Result<WhaleView, TokenError>) {
    if !whale_decodes(whale_data) {
        (whale_data, Err(TokenError::Decode(DecodeError::TooShort)))
    } else {
        let w0 = spec_init_whale(parse_whale(whale_data), whale_addr);
        let w1 = match whale_signer {
            Some(s) => if s.is_signer && payload.len() >= 8 {
                spec_update_whale(w0, s.address, spec_u64_from_le_bytes(payload.subrange(0, 8)))
            } else {
                w0
            },
            None => w0,
        };
        (overwrite(whale_data, whale_bytes(w1), WHALE_LEN as int), Ok(w1))
    }
}

/// The buy phase.  It runs only when a buy signer and at least eight
/// payload bytes are supplied; a buy larger than the reserve fails with
/// [`TokenError::InsufficientLiquidity`] and writes nothing.  On success
/// the pool and global-token buffers are rewritten first; only then is
/// the buyer's own record decoded, lazily initialized and credited, so a
/// buyer whose buffer cannot be decoded leaves the pool and supply
/// already debited.  Returns the token buffer, the pool buffer, the
/// buyer buffer, the live token record, and the phase's result.
pub open spec fn spec_buy_phase(
    buyer: Option<AccountView>,
    payload: Seq<u8>,
    t: TokenView,
    p: crate::records::PoolView,
    token_data: Seq<u8>,
    pool_data: Seq<u8>,
) -> (Seq<u8>, Seq<u8>, Option<Seq<u8>>, TokenView, Result<(), TokenError>) {
    match buyer {
        None => (token_data, pool_data, None, t, Ok(())),
        Some(b) => {
            if !(b.is_signer && payload.len() >= 8) {
                (token_data, pool_data, Some(b.data), t, Ok(()))
            } else {
                let amount = spec_u64_from_le_bytes(payload.subrange(0, 8));
                if amount > p.reserve {
                    (
                        token_data,
                        pool_data,
                        Some(b.data),
                        t,
                        Err(TokenError::InsufficientLiquidity),
                    )
                } else {
                    let t2 = spec_credit_supply(t, amount);
                    let p2 = spec_buy_pool(p, amount);
                    let token_data2 = overwrite(token_data, token_bytes(t2), TOKEN_LEN as int);
                    let pool_data2 = overwrite(pool_data, pool_bytes(p2), POOL_LEN as int);
                    if !token_decodes(b.data) {
                        (
                            token_data2,
                            pool_data2,
                            Some(b.data),
                            t2,
                            Err(TokenError::Decode(token_decode_err(b.data))),
                        )
                    } else {
                        let b2 = spec_credit_supply(
                            spec_init_user_token(parse_token(b.data)),
                            amount,
                        );
                        (
                            token_data2,
                            pool_data2,
                            Some(overwrite(b.data, token_bytes(b2), TOKEN_LEN as int)),
                            t2,
                            Ok(()),
                        )
                    }
                }
            }
        },
    }
}

/// The tail of a taxed transfer, once the gates have passed and the
/// wallets record is settled: the sender's record is debited and written
/// back, then the recipient's record is credited and written back, then
/// the global token, wallets and whale buffers are rewritten.  A sender
/// buffer that cannot be decoded aborts before any write; a recipient
/// buffer that cannot be decoded aborts after the sender's buffer was
/// already written.  Returns the token buffer, the whale buffer, the
/// sender, recipient and wallets buffers, and the result.
pub open spec fn spec_transfer_finish(
    snd_data: Seq<u8>,
    rcp_data: Seq<u8>,
    wallets_data: Seq<u8>,
    wl: WalletsView,
    t2: TokenView,
    w2: WhaleView,
    amount: u64,
    token_data: Seq<u8>,
    whale_data: Seq<u8>,
) -> (Seq<u8>, Seq<u8>, Option<Seq<u8>>, Option<Seq<u8>>, Option<Seq<u8>>, Result<
    (),
    TokenError,
>) {
    if !token_decodes(snd_data) {
        (
            token_data,
            whale_data,
            Some(snd_data),
            Some(rcp_data),
            Some(wallets_data),
            Err(TokenError::Decode(token_decode_err(snd_data))),
        )
    } else {
        let s2 = spec_debit_sender(parse_token(snd_data), amount);
        let snd_data2 = overwrite(snd_data, token_bytes(s2), TOKEN_LEN as int);
        if !token_decodes(rcp_data) {
            (
                token_data,
                whale_data,
                Some(snd_data2),
                Some(rcp_data),
                Some(wallets_data),
                Err(TokenError::Decode(token_decode_err(rcp_data))),
            )
        } else {
            let r2 = spec_credit_recipient(parse_token(rcp_data), amount);
            (
                overwrite(token_data, token_bytes(t2), TOKEN_LEN as int),
                overwrite(whale_data, whale_bytes(w2), WHALE_LEN as int),
                Some(snd_data2),
                Some(overwrite(rcp_data, token_bytes(r2), TOKEN_LEN as int)),
                Some(overwrite(wallets_data, wallets_bytes(wl), WALLETS_LEN as int)),
                Ok(()),
            )
        }
    }
}

/// The taxed-transfer phase.  It runs only when sender and recipient are
/// both supplied, both signed, and the payload holds at least 24 bytes.
/// The gates, in order: the transfer amount must not exceed the global
/// unlocked supply ([`TokenError::InsufficientUnlocked`]); an unlock
/// date in the future fails ([`TokenError::StillLocked`]) while one equal
/// to now proceeds; the wallets account must be supplied
/// ([`TokenError::MissingAccount`]) and must decode; an untouched wallets
/// record adopts the supplied marketing and staff addresses or fails
/// with [`TokenError::MissingAccount`].  The amount and the flat 5% tax
/// leave the global unlocked supply, and a sender who is the recorded
/// whale holder has the tracked amount replaced by this transfer's
/// amount.
pub open spec fn spec_transfer_phase(
    sender: Option<AccountView>,
    recipient: Option<AccountView>,
    wallets: Option<AccountView>,
    marketing: Option<Seq<u8>>,
    staff: Option<Seq<u8>>,
    payload: Seq<u8>,
    now: i64,
    t: TokenView,
    w: WhaleView,
    token_data: Seq<u8>,
    whale_data: Seq<u8>,
) -> (Seq<u8>, Seq<u8>, Option<Seq<u8>>, Option<Seq<u8>>, Option<Seq<u8>>, Result<
    (),
    TokenError,
>) {
    let skipped = (token_data, whale_data, opt_data(sender), opt_data(recipient), opt_data(wallets), Ok::<(), TokenError>(()));
    match (sender, recipient) {
        (Some(snd), Some(rcp)) => {
            if !(snd.is_signer && rcp.is_signer && payload.len() >= 24) {
                skipped
            } else {
                let amount = spec_u64_from_le_bytes(payload.subrange(0, 8));
                let unlock_date = spec_i64_from_le_bytes(payload.subrange(8, 16));
                if amount > t.unlocked_supply {
                    (
                        token_data,
                        whale_data,
                        Some(snd.data),
                        Some(rcp.data),
                        opt_data(wallets),
                        Err(TokenError::InsufficientUnlocked),
                    )
                } else if unlock_date > now {
                    (
                        token_data,
                        whale_data,
                        Some(snd.data),
                        Some(rcp.data),
                        opt_data(wallets),
                        Err(TokenError::StillLocked),
                    )
                } else {
                    let t2 = spec_deduct_supply(t, amount);
                    let w2 = spec_transfer_whale(w, snd.address, amount);
                    match wallets {
                        None => (
                            token_data,
                            whale_data,
                            Some(snd.data),
                            Some(rcp.data),
                            None,
                            Err(TokenError::MissingAccount),
                        ),
                        Some(wa) => {
                            if !wallets_decodes(wa.data) {
                                (
                                    token_data,
                                    whale_data,
                                    Some(snd.data),
                                    Some(rcp.data),
                                    Some(wa.data),
                                    Err(TokenError::Decode(DecodeError::TooShort)),
                                )
                            } else {
                                let wl0 = parse_wallets(wa.data);
                                if wl0.is_initialized() {
                                    spec_transfer_finish(
                                        snd.data,
                                        rcp.data,
                                        wa.data,
                                        wl0,
                                        t2,
                                        w2,
                                        amount,
                                        token_data,
                                        whale_data,
                                    )
                                } else {
                                    match (marketing, staff) {
                                        (Some(m), Some(s)) => spec_transfer_finish(
                                            snd.data,
                                            rcp.data,
                                            wa.data,
                                            WalletsView { marketing_wallet: m, staff_wallet: s },
                                            t2,
                                            w2,
                                            amount,
                                            token_data,
                                            whale_data,
                                        ),
                                        _ => (
                                            token_data,
                                            whale_data,
                                            Some(snd.data),
                                            Some(rcp.data),
                                            Some(wa.data),
                                            Err(TokenError::MissingAccount),
                                        ),
                                    }
                                }
                            }
                        },
                    }
                }
            }
        },
        _ => skipped,
    }
}

/// Everything one invocation leaves behind: the final contents of every
/// buffer it may touch, and the result.
#[verifier::ext_equal]
pub struct Outcome {
    pub token_data: Seq<u8>,
    pub pool_data: Seq<u8>,
    pub whale_data: Seq<u8>,
    pub buyer_data: Option<Seq<u8>>,
    pub sender_data: Option<Seq<u8>>,
    pub recipient_data: Option<Seq<u8>>,
    pub wallets_data: Option<Seq<u8>>,
    pub result: Result<(), TokenError>,
}

/// The specification-level interpreter of one whole invocation: the
/// fixed pipeline of [`spec_prelude`], [`spec_pool_phase`],
/// [`spec_whale_phase`], [`spec_buy_phase`] and [`spec_transfer_phase`],
/// short-circuiting on the first failure and keeping whatever earlier
/// phases already wrote.
pub open spec fn spec_process(v: InvocationView) -> Outcome {
    let (token_data1, pre) = spec_prelude(
        v.program_id,
        v.token.address,
        v.token.owner,
        v.token.data,
        v.rent_exempt,
        v.blacklist.data,
    );
    let o1 = Outcome {
        token_data: token_data1,
        pool_data: v.pool.data,
        whale_data: v.whale.data,
        buyer_data: opt_data(v.buyer),
        sender_data: opt_data(v.sender),
        recipient_data: opt_data(v.recipient),
        wallets_data: opt_data(v.wallets),
        result: Ok(()),
    };
    match pre {
        Err(e) => Outcome { result: Err(e), ..o1 },
        Ok(t) => {
            let (pool_data1, pr) = spec_pool_phase(
                v.program_id,
                v.pool.owner,
                v.pool.data,
                t.total_supply,
                v.now,
            );
            let o2 = Outcome { pool_data: pool_data1, ..o1 };
            match pr {
                Err(e) => Outcome { result: Err(e), ..o2 },
                Ok(p) => {
                    let (whale_data1, wr) = spec_whale_phase(
                        v.whale.address,
                        v.whale.data,
                        v.whale_signer,
                        v.payload,
                    );
                    let o3 = Outcome { whale_data: whale_data1, ..o2 };
                    match wr {
                        Err(e) => Outcome { result: Err(e), ..o3 },
                        Ok(w) => {
                            let (token_data2, pool_data2, buyer_data2, t2, br) = spec_buy_phase(
                                v.buyer,
                                v.payload,
                                t,
                                p,
                                o3.token_data,
                                o3.pool_data,
                            );
                            let o4 = Outcome {
                                token_data: token_data2,
                                pool_data: pool_data2,
                                buyer_data: buyer_data2,
                                ..o3
                            };
                            match br {
                                Err(e) => Outcome { result: Err(e), ..o4 },
                                Ok(_) => {
                                    let (
                                        token_data3,
                                        whale_data2,
                                        sender_data2,
                                        recipient_data2,
                                        wallets_data2,
                                        tr,
                                    ) = spec_transfer_phase(
                                        v.sender,
                                        v.recipient,
                                        v.wallets,
                                        v.marketing,
                                        v.staff,
                                        v.payload,
                                        v.now,
                                        t2,
                                        w,
                                        o4.token_data,
                                        o4.whale_data,
                                    );
                                    Outcome {
                                        token_data: token_data3,
                                        whale_data: whale_data2,
                                        sender_data: sender_data2,
                                        recipient_data: recipient_data2,
                                        wallets_data: wallets_data2,
                                        result: tr,
                                        ..o4
                                    }
                                },
                            }
                        },
                    }
                },
            }
        },
    }
}

/// Runs validation and genesis: owner check, rent check, token decode,
/// lazy genesis mint, write-back, blacklist gate.
fn run_prelude(
    program_id: &Vec<u8>,
    token: &mut AccountIn,
    rent_exempt: bool,
    blacklist: &AccountIn,
) -> (r: Result<AresToken, TokenError>)
    ensures
        ({
            let (d, res) = spec_prelude(
                program_id@,
                old(token)@.address,
                old(token)@.owner,
                old(token)@.data,
                rent_exempt,
                blacklist@.data,
            );
            &&& final(token)@.data =~= d
            &&& final(token)@.address == old(token)@.address
            &&& final(token)@.owner == old(token)@.owner
            &&& final(token)@.is_signer == old(token)@.is_signer
            &&& final(token)@.data.len() == old(token)@.data.len()
            &&& match (r, res) {
                (Ok(t), Ok(tv)) => t@ == tv && t@.wf(),
                (Err(e1), Err(e2)) => e1 == e2,
                _ => false,
            }
        }),
{
    if !bytes_eq(token.owner.as_slice(), program_id.as_slice()) {
        return Err(TokenError::WrongOwner);
    }
    if !rent_exempt {
        return Err(TokenError::NotRentExempt);
    }
    let mut t = match decode_token(token.data.as_slice()) {
        Err(e) => { return Err(TokenError::Decode(e)); },
        Ok(t) => t,
    };
    init_token(&mut t);
    encode_token(&t, &mut token.data);
    let bl = match decode_blacklist(blacklist.data.as_slice()) {
        Err(e) => { return Err(TokenError::Decode(e)); },
        Ok(b) => b,
    };
    if bl.bans(&token.address) {
        return Err(TokenError::Blacklisted);
    }
    Ok(t)
}

/// Runs the pool phase: owner check, decode, lazy genesis, burn,
/// write-back.
fn pool_phase(
    program_id: &Vec<u8>,
    pool: &mut AccountIn,
    total_supply: u64,
    now: i64,
) -> (r: Result<LiquidityPool, TokenError>)
    ensures
        ({
            let (d, res) = spec_pool_phase(
                program_id@,
                old(pool)@.owner,
                old(pool)@.data,
                total_supply,
                now,
            );
            &&& final(pool)@.data =~= d
            &&& final(pool)@.address == old(pool)@.address
            &&& final(pool)@.owner == old(pool)@.owner
            &&& final(pool)@.is_signer == old(pool)@.is_signer
            &&& final(pool)@.data.len() == old(pool)@.data.len()
            &&& match (r, res) {
                (Ok(p), Ok(pv)) => p@ == pv,
                (Err(e1), Err(e2)) => e1 == e2,
                _ => false,
            }
        }),
{
    if !bytes_eq(pool.owner.as_slice(), program_id.as_slice()) {
        return Err(TokenError::WrongOwner);
    }
    let mut p = match decode_pool(pool.data.as_slice()) {
        Err(e) => { return Err(TokenError::Decode(e)); },
        Ok(p) => p,
    };
    init_pool(&mut p, total_supply, now);
    apply_burn(&mut p, now);
    encode_pool(&p, &mut pool.data);
    Ok(p)
}

/// Runs the whale phase: decode, lazy initialization, the
/// strictly-larger-purchase update, write-back.
fn whale_phase(
    whale: &mut AccountIn,
    whale_signer: &Option<AccountIn>,
    payload: &Vec<u8>,
) -> (r: Result<KingWhale, TokenError>)
    requires
        account_wf(old(whale)@),
        opt_account_wf(opt_account_view(*whale_signer)),
    ensures
        ({
            let (d, res) = spec_whale_phase(
                old(whale)@.address,
                old(whale)@.data,
                opt_account_view(*whale_signer),
                payload@,
            );
            &&& final(whale)@.data =~= d
            &&& final(whale)@.address == old(whale)@.address
            &&& final(whale)@.owner == old(whale)@.owner
            &&& final(whale)@.is_signer == old(whale)@.is_signer
            &&& final(whale)@.data.len() == old(whale)@.data.len()
            &&& match (r, res) {
                (Ok(w), Ok(wv)) => w@ == wv && w@.wf(),
                (Err(e1), Err(e2)) => e1 == e2,
                _ => false,
            }
        }),
{
    let mut w = match decode_whale(whale.data.as_slice()) {
        Err(e) => { return Err(TokenError::Decode(e)); },
        Ok(w) => w,
    };
    init_whale(&mut w, &whale.address);
    match whale_signer {
        Some(s) => {
            if s.is_signer && payload.len() >= 8 {
                let amount = u64_from_le_bytes(slice_subrange(payload.as_slice(), 0, 8));
                update_whale(&mut w, &s.address, amount);
            }
        },
        None => {},
    }
    encode_whale(&w, &mut whale.data);
    Ok(w)
}

/// Runs the buy phase.
fn buy_phase(
    buyer: Option<AccountIn>,
    payload: &Vec<u8>,
    t: &mut AresToken,
    p: &mut LiquidityPool,
    token_acc: &mut AccountIn,
    pool_acc: &mut AccountIn,
) -> (out: (Option<AccountIn>, Result<(), TokenError>))
    requires
        old(t)@.wf(),
        old(token_acc)@.data.len() >= TOKEN_LEN,
        old(pool_acc)@.data.len() >= POOL_LEN,
    ensures
        ({
            let (td, pd, bd, t2, res) = spec_buy_phase(
                opt_account_view(buyer),
                payload@,
                old(t)@,
                old(p)@,
                old(token_acc)@.data,
                old(pool_acc)@.data,
            );
            &&& final(token_acc)@.data =~= td
            &&& final(token_acc)@.address == old(token_acc)@.address
            &&& final(token_acc)@.owner == old(token_acc)@.owner
            &&& final(token_acc)@.is_signer == old(token_acc)@.is_signer
            &&& final(token_acc)@.data.len() == old(token_acc)@.data.len()
            &&& final(pool_acc)@.data =~= pd
            &&& final(pool_acc)@.address == old(pool_acc)@.address
            &&& final(pool_acc)@.owner == old(pool_acc)@.owner
            &&& final(pool_acc)@.is_signer == old(pool_acc)@.is_signer
            &&& final(pool_acc)@.data.len() == old(pool_acc)@.data.len()
            &&& opt_account_view(out.0) =~~= opt_with_data(opt_account_view(buyer), bd)
            &&& final(t)@ == t2
            &&& final(t)@.wf()
            &&& out.1 == res
        }),
{
    match buyer {
        None => (None, Ok(())),
        Some(mut b) => {
            if !(b.is_signer && payload.len() >= 8) {
                return (Some(b), Ok(()));
            }
            let amount = u64_from_le_bytes(slice_subrange(payload.as_slice(), 0, 8));
            match buy_from_pool(p, t, amount) {
                Err(e) => (Some(b), Err(e)),
                Ok(_) => {
                    encode_token(t, &mut token_acc.data);
                    encode_pool(p, &mut pool_acc.data);
                    match decode_token(b.data.as_slice()) {
                        Err(e) => (Some(b), Err(TokenError::Decode(e))),
                        Ok(mut rec) => {
                            credit_buyer(&mut rec, amount);
                            encode_token(&rec, &mut b.data);
                            (Some(b), Ok(()))
                        },
                    }
                },
            }
        },
    }
}

/// Runs the taxed-transfer phase.
fn transfer_phase(
    sender: Option<AccountIn>,
    recipient: Option<AccountIn>,
    wallets: Option<AccountIn>,
    marketing: &Option<Vec<u8>>,
    staff: &Option<Vec<u8>>,
    payload: &Vec<u8>,
    now: i64,
    t: AresToken,
    w: KingWhale,
    token_acc: &mut AccountIn,
    whale_acc: &mut AccountIn,
) -> (out: (Option<AccountIn>, Option<AccountIn>, Option<AccountIn>, Result<(), TokenError>))
    requires
        t@.wf(),
        w@.wf(),
        old(token_acc)@.data.len() >= TOKEN_LEN,
        old(whale_acc)@.data.len() >= WHALE_LEN,
        opt_addr_wf(opt_addr_view(*marketing)),
        opt_addr_wf(opt_addr_view(*staff)),
    ensures
        ({
            let (td, wd, sd, rd, wld, res) = spec_transfer_phase(
                opt_account_view(sender),
                opt_account_view(recipient),
                opt_account_view(wallets),
                opt_addr_view(*marketing),
                opt_addr_view(*staff),
                payload@,
                now,
                t@,
                w@,
                old(token_acc)@.data,
                old(whale_acc)@.data,
            );
            &&& final(token_acc)@.data =~= td
            &&& final(token_acc)@.address == old(token_acc)@.address
            &&& final(token_acc)@.owner == old(token_acc)@.owner
            &&& final(token_acc)@.is_signer == old(token_acc)@.is_signer
            &&& final(whale_acc)@.data =~= wd
            &&& final(whale_acc)@.address == old(whale_acc)@.address
            &&& final(whale_acc)@.owner == old(whale_acc)@.owner
            &&& final(whale_acc)@.is_signer == old(whale_acc)@.is_signer
            &&& opt_account_view(out.0) =~~= opt_with_data(opt_account_view(sender), sd)
            &&& opt_account_view(out.1) =~~= opt_with_data(opt_account_view(recipient), rd)
            &&& opt_account_view(out.2) =~~= opt_with_data(opt_account_view(wallets), wld)
            &&& out.3 == res
        }),
{
    let ghost w0 = w@;
    let mut t = t;
    let mut w = w;
    match (sender, recipient) {
        (Some(mut snd), Some(mut rcp)) => {
            if !(snd.is_signer && rcp.is_signer && payload.len() >= 24) {
                return (Some(snd), Some(rcp), wallets, Ok(()));
            }
            let amount = u64_from_le_bytes(slice_subrange(payload.as_slice(), 0, 8));
            let unlock_date = u64_from_le_bytes(slice_subrange(payload.as_slice(), 8, 16)) as i64;
            if amount > t.unlocked_supply {
                return (Some(snd), Some(rcp), wallets, Err(TokenError::InsufficientUnlocked));
            }
            if unlock_date > now {
                return (Some(snd), Some(rcp), wallets, Err(TokenError::StillLocked));
            }
            deduct_supply(&mut t, amount);
            if bytes_eq(w.kingwhale_account.as_slice(), snd.address.as_slice()) {
                w.largest_purchase = amount;
            }
            assert(w@ == spec_transfer_whale(w0, snd@.address, amount));
            let mut wa = match wallets {
                None => {
                    return (Some(snd), Some(rcp), None, Err(TokenError::MissingAccount));
                },
                Some(wa) => wa,
            };
            let mut wl = match decode_wallets(wa.data.as_slice()) {
                Err(e) => {
                    return (Some(snd), Some(rcp), Some(wa), Err(TokenError::Decode(e)));
                },
                Ok(x) => x,
            };
            if !wl.is_initialized() {
                match (marketing, staff) {
                    (Some(m), Some(s)) => {
                        wl = Wallets { marketing_wallet: m.clone(), staff_wallet: s.clone() };
                    },
                    _ => {
                        return (Some(snd), Some(rcp), Some(wa), Err(TokenError::MissingAccount));
                    },
                }
            }
            let mut srec = match decode_token(snd.data.as_slice()) {
                Err(e) => {
                    return (Some(snd), Some(rcp), Some(wa), Err(TokenError::Decode(e)));
                },
                Ok(x) => x,
            };
            debit_sender(&mut srec, amount);
            encode_token(&srec, &mut snd.data);
            let mut rrec = match decode_token(rcp.data.as_slice()) {
                Err(e) => {
                    return (Some(snd), Some(rcp), Some(wa), Err(TokenError::Decode(e)));
                },
                Ok(x) => x,
            };
            credit_recipient(&mut rrec, amount);
            encode_token(&rrec, &mut rcp.data);
            encode_token(&t, &mut token_acc.data);
            encode_wallets(&wl, &mut wa.data);
            encode_whale(&w, &mut whale_acc.data);
            (Some(snd), Some(rcp), Some(wa), Ok(()))
        },
        (s, r) => (s, r, wallets, Ok(())),
    }
}

/// An optional account with its buffer replaced, when both are there.
pub open spec fn opt_with_data(a: Option<AccountView>, d: Option<Seq<u8>>) -> Option<AccountView> {
    match (a, d) {
        (Some(x), Some(s)) => Some(AccountView { data: s, ..x }),
        _ => a,
    }
}

/// The request as the invocation leaves it: the same accounts and
/// oracles, with the buffers an [`Outcome`] assigns.
pub open spec fn final_view(v: InvocationView, o: Outcome) -> InvocationView {
    InvocationView {
        token: AccountView { data: o.token_data, ..v.token },
        pool: AccountView { data: o.pool_data, ..v.pool },
        whale: AccountView { data: o.whale_data, ..v.whale },
        buyer: opt_with_data(v.buyer, o.buyer_data),
        sender: opt_with_data(v.sender, o.sender_data),
        recipient: opt_with_data(v.recipient, o.recipient_data),
        wallets: opt_with_data(v.wallets, o.wallets_data),
        ..v
    }
}

/// The blacklist check precedes every economic step: when the acting
/// address is banned and validation succeeds, the whole invocation fails
/// with [`TokenError::Blacklisted`].  The token buffer alone holds its
/// lazily initialized record; the pool, whale and every optional buffer
/// are untouched.
pub proof fn lemma_blacklist_gates(v: InvocationView)
    requires
        v.token.owner == v.program_id,
        v.rent_exempt,
        token_decodes(v.token.data),
        blacklist_decodes(v.blacklist.data),
        parse_blacklist(v.blacklist.data).bans(v.token.address),
    ensures
        spec_process(v).result == Err::<(), TokenError>(TokenError::Blacklisted),
        spec_process(v).token_data == overwrite(
            v.token.data,
            token_bytes(spec_init_token(parse_token(v.token.data))),
            TOKEN_LEN as int,
        ),
        spec_process(v).pool_data == v.pool.data,
        spec_process(v).whale_data == v.whale.data,
        spec_process(v).buyer_data == opt_data(v.buyer),
        spec_process(v).sender_data == opt_data(v.sender),
        spec_process(v).recipient_data == opt_data(v.recipient),
        spec_process(v).wallets_data == opt_data(v.wallets),
{
}

/// A buy larger than the reserve fails with
/// [`TokenError::InsufficientLiquidity`] and leaves every buffer and the
/// live token record exactly as they were.
pub proof fn lemma_buy_overdraw(
    b: AccountView,
    payload: Seq<u8>,
    t: TokenView,
    p: crate::records::PoolView,
    token_data: Seq<u8>,
    pool_data: Seq<u8>,
)
    requires
        b.is_signer,
        payload.len() >= 8,
        spec_u64_from_le_bytes(payload.subrange(0, 8)) > p.reserve,
    ensures
        ({
            let (td, pd, bd, t2, res) = spec_buy_phase(Some(b), payload, t, p, token_data, pool_data);
            &&& td == token_data
            &&& pd == pool_data
            &&& bd == Some(b.data)
            &&& t2 == t
            &&& res == Err::<(), TokenError>(TokenError::InsufficientLiquidity)
        }),
{
}

/// The lock-date boundary: with both signers present, enough payload and
/// an amount within the unlocked supply, a transfer whose unlock date
/// exceeds now fails with [`TokenError::StillLocked`], while one whose
/// unlock date is now or earlier never does — an unlock date exactly
/// equal to now counts as unlocked.
pub proof fn lemma_unlock_date_boundary(
    snd: AccountView,
    rcp: AccountView,
    wallets: Option<AccountView>,
    marketing: Option<Seq<u8>>,
    staff: Option<Seq<u8>>,
    payload: Seq<u8>,
    now: i64,
    t: TokenView,
    w: WhaleView,
    token_data: Seq<u8>,
    whale_data: Seq<u8>,
)
    requires
        snd.is_signer,
        rcp.is_signer,
        payload.len() >= 24,
        spec_u64_from_le_bytes(payload.subrange(0, 8)) <= t.unlocked_supply,
    ensures
        ({
            let (td, wd, sd, rd, wld, res) = spec_transfer_phase(
                Some(snd),
                Some(rcp),
                wallets,
                marketing,
                staff,
                payload,
                now,
                t,
                w,
                token_data,
                whale_data,
            );
            &&& spec_i64_from_le_bytes(payload.subrange(8, 16)) > now <==> res == Err::<
                (),
                TokenError,
            >(TokenError::StillLocked)
        }),
{
}

/// Runs one whole invocation over the typed request and returns the
/// request with its buffers rewritten, together with the result.  The
/// outcome — every buffer and the result — is exactly what
/// [`spec_process`] assigns; buffers written before a failing step stay
/// written.
pub fn process_invocation(inv: Invocation) -> (out: (Invocation, Result<(), TokenError>))
    requires
        inv_wf(inv@),
    ensures
        ({
            let o = spec_process(inv@);
            &&& out.1 == o.result
            &&& out.0@ =~~= final_view(inv@, o)
        }),
{
    let ghost v = inv@;
    let Invocation {
        program_id,
        mut token,
        rent_exempt,
        blacklist,
        mut pool,
        now,
        mut whale,
        whale_signer,
        buyer,
        sender,
        recipient,
        wallets,
        marketing,
        staff,
        payload,
    } = inv;
    let t = match run_prelude(&program_id, &mut token, rent_exempt, &blacklist) {
        Err(e) => {
            let out_inv = Invocation {
                program_id,
                token,
                rent_exempt,
                blacklist,
                pool,
                now,
                whale,
                whale_signer,
                buyer,
                sender,
                recipient,
                wallets,
                marketing,
                staff,
                payload,
            };
            assert(out_inv@ =~~= final_view(v, spec_process(v)));
            return (out_inv, Err(e));
        },
        Ok(t) => t,
    };
    let mut t = t;
    let p = match pool_phase(&program_id, &mut pool, t.total_supply, now) {
        Err(e) => {
            let out_inv = Invocation {
                program_id,
                token,
                rent_exempt,
                blacklist,
                pool,
                now,
                whale,
                whale_signer,
                buyer,
                sender,
                recipient,
                wallets,
                marketing,
                staff,
                payload,
            };
            assert(out_inv@ =~~= final_view(v, spec_process(v)));
            return (out_inv, Err(e));
        },
        Ok(p) => p,
    };
    let mut p = p;
    let w = match whale_phase(&mut whale, &whale_signer, &payload) {
        Err(e) => {
            let out_inv = Invocation {
                program_id,
                token,
                rent_exempt,
                blacklist,
                pool,
                now,
                whale,
                whale_signer,
                buyer,
                sender,
                recipient,
                wallets,
                marketing,
                staff,
                payload,
            };
            assert(out_inv@ =~~= final_view(v, spec_process(v)));
            return (out_inv, Err(e));
        },
        Ok(w) => w,
    };
    let (buyer, buy_result) = buy_phase(buyer, &payload, &mut t, &mut p, &mut token, &mut pool);
    match buy_result {
        Err(e) => {
            let out_inv = Invocation {
                program_id,
                token,
                rent_exempt,
                blacklist,
                pool,
                now,
                whale,
                whale_signer,
                buyer,
                sender,
                recipient,
                wallets,
                marketing,
                staff,
                payload,
            };
            assert(out_inv@ =~~= final_view(v, spec_process(v)));
            return (out_inv, Err(e));
        },
        Ok(_) => {},
    }
    let (sender, recipient, wallets, transfer_result) = transfer_phase(
        sender,
        recipient,
        wallets,
        &marketing,
        &staff,
        &payload,
        now,
        t,
        w,
        &mut token,
        &mut whale,
    );
    let out_inv = Invocation {
        program_id,
        token,
        rent_exempt,
        blacklist,
        pool,
        now,
        whale,
        whale_signer,
        buyer,
        sender,
        recipient,
        wallets,
        marketing,
        staff,
        payload,
    };
    assert(out_inv@ =~~= final_view(v, spec_process(v)));
    (out_inv, transfer_result)
}

} // verus!
