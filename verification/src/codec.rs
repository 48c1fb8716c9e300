//! Byte-exact (de)serialization of the five record kinds.
//!
//! Every record has a fixed width; all multi-byte integers are
//! little-endian.  Decoding rejects buffers shorter than the record's
//! width with [`DecodeError::TooShort`] and an initialization flag byte
//! other than 0 or 1 with [`DecodeError::Malformed`]; bytes beyond the
//! record's width are ignored.  Encoding writes the record into the first
//! bytes of a caller-owned buffer of at least the record's width and
//! never reallocates or resizes it.

use vstd::bytes::{
    lemma_auto_spec_u64_to_from_le_bytes, spec_u64_from_le_bytes, spec_u64_to_le_bytes,
    u64_from_le_bytes, u64_to_le_bytes,
};
use vstd::prelude::*;
use vstd::slice::{slice_subrange, slice_to_vec};

use crate::records::{
    AresToken, Blacklist, BlacklistView, KingWhale, LiquidityPool, PoolView, TokenView, WhaleView,
    Wallets, WalletsView,
};
use crate::DecodeError;

verus! {

/// Encoded width of an `AresToken` record.
pub const TOKEN_LEN: usize = 29;

/// Encoded width of a `LiquidityPool` record.
pub const POOL_LEN: usize = 17;

/// Encoded width of a `KingWhale` record.
pub const WHALE_LEN: usize = 40;

/// Encoded width of a `Blacklist` record.
pub const BLACKLIST_LEN: usize = 33;

/// Encoded width of a `Wallets` record.
pub const WALLETS_LEN: usize = 64;

/// The byte an initialization flag encodes to.
pub open spec fn flag_byte(b: bool) -> u8 {
    if b {
        1u8
    } else {
        0u8
    }
}

/// The bytes an initialization flag may decode from.
pub open spec fn valid_flag(x: u8) -> bool {
    x == 0 || x == 1
}

/// Little-endian bytes of a signed 64-bit value: the bytes of its
/// two's-complement bit pattern.
pub open spec fn spec_i64_to_le_bytes(x: i64) -> Seq<u8> {
    spec_u64_to_le_bytes(x as u64)
}

/// The signed 64-bit value whose two's-complement bit pattern the eight
/// bytes spell.
pub open spec fn spec_i64_from_le_bytes(s: Seq<u8>) -> i64
    recommends
        s.len() == 8,
{
    spec_u64_from_le_bytes(s) as i64
}

/// Serializing a signed 64-bit value and parsing it back is the identity.
pub proof fn lemma_i64_le_bytes_round_trip(x: i64)
    ensures
        spec_i64_to_le_bytes(x).len() == 8,
        spec_i64_from_le_bytes(spec_i64_to_le_bytes(x)) == x,
{
    lemma_auto_spec_u64_to_from_le_bytes();
    assert(((x as u64) as i64) == x) by (bit_vector);
}

/// Writes `src` into `dst` starting at byte `at`, leaving every other
/// byte of `dst` unchanged.
pub fn write_bytes(dst: &mut Vec<u8>, at: usize, src: &[u8])
    requires
        at + src@.len() <= old(dst)@.len(),
    ensures
        final(dst)@.len() == old(dst)@.len(),
        forall|j: int|
            0 <= j < final(dst)@.len() ==> final(dst)@[j] == (if at <= j < at + src@.len() {
                src@[j - at]
            } else {
                old(dst)@[j]
            }),
{
    let n = src.len();
    let dlen = dst.len();
    let mut i: usize = 0;
    while i < n
        invariant
            n == src@.len(),
            dlen == dst@.len(),
            at + n <= dlen,
            dst@.len() == old(dst)@.len(),
            i <= n,
            forall|j: int|
                0 <= j < dst@.len() ==> dst@[j] == (if at <= j < at + i {
                    src@[j - at]
                } else {
                    old(dst)@[j]
                }),
        decreases n - i,
    {
        let b = src[i];
        dst[at + i] = b;
        i = i + 1;
    }
}

/// The encoded form of a token record: flag, total supply, unlocked
/// supply, locked supply, symbol.
pub open spec fn token_bytes(t: TokenView) -> Seq<u8> {
    seq![flag_byte(t.is_initialized)] + spec_u64_to_le_bytes(t.total_supply)
        + spec_u64_to_le_bytes(t.unlocked_supply) + spec_u64_to_le_bytes(t.locked_supply)
        + t.symbol
}

/// The token record a well-formed buffer prefix spells.
pub open spec fn parse_token(s: Seq<u8>) -> TokenView
    recommends
        s.len() >= TOKEN_LEN,
{
    TokenView {
        is_initialized: s[0] == 1u8,
        total_supply: spec_u64_from_le_bytes(s.subrange(1, 9)),
        unlocked_supply: spec_u64_from_le_bytes(s.subrange(9, 17)),
        locked_supply: spec_u64_from_le_bytes(s.subrange(17, 25)),
        symbol: s.subrange(25, 29),
    }
}

/// Whether a buffer decodes as a token record.
pub open spec fn token_decodes(s: Seq<u8>) -> bool {
    s.len() >= TOKEN_LEN && valid_flag(s[0])
}

/// Decodes a token record from the first [`TOKEN_LEN`] bytes of `src`.
pub fn decode_token(src: &[u8]) -> (r: Result<AresToken, DecodeError>)
    ensures
        match r {
            Ok(t) => token_decodes(src@) && t@ =~= parse_token(src@) && t@.wf(),
            Err(DecodeError::TooShort) => src@.len() < TOKEN_LEN,
            Err(DecodeError::Malformed) => src@.len() >= TOKEN_LEN && !valid_flag(src@[0]),
        },
{
    if src.len() < TOKEN_LEN {
        return Err(DecodeError::TooShort);
    }
    let flag = src[0];
    if flag > 1 {
        return Err(DecodeError::Malformed);
    }
    let total_supply = u64_from_le_bytes(slice_subrange(src, 1, 9));
    let unlocked_supply = u64_from_le_bytes(slice_subrange(src, 9, 17));
    let locked_supply = u64_from_le_bytes(slice_subrange(src, 17, 25));
    let mut symbol: Vec<u8> = Vec::new();
    symbol.push(src[25]);
    symbol.push(src[26]);
    symbol.push(src[27]);
    symbol.push(src[28]);
    assert(symbol@ =~= src@.subrange(25, 29));
    let t = AresToken { is_initialized: flag == 1, total_supply, unlocked_supply, locked_supply, symbol };
    assert(t@ =~= parse_token(src@));
    Ok(t)
}

/// Encodes a token record into the first [`TOKEN_LEN`] bytes of `dst`,
/// leaving the rest of the buffer unchanged.
pub fn encode_token(t: &AresToken, dst: &mut Vec<u8>)
    requires
        t@.wf(),
        old(dst)@.len() >= TOKEN_LEN,
    ensures
        final(dst)@.len() == old(dst)@.len(),
        final(dst)@ =~= token_bytes(t@) + old(dst)@.skip(TOKEN_LEN as int),
{
    dst[0] = if t.is_initialized {
        1u8
    } else {
        0u8
    };
    let total = u64_to_le_bytes(t.total_supply);
    write_bytes(dst, 1, total.as_slice());
    let unlocked = u64_to_le_bytes(t.unlocked_supply);
    write_bytes(dst, 9, unlocked.as_slice());
    let locked = u64_to_le_bytes(t.locked_supply);
    write_bytes(dst, 17, locked.as_slice());
    write_bytes(dst, 25, t.symbol.as_slice());
    assert(dst@ =~= token_bytes(t@) + old(dst)@.skip(TOKEN_LEN as int));
}

/// Round trip: decoding an encoded token record gives the record back,
/// for every well-formed record value.
pub proof fn lemma_token_round_trip(t: TokenView)
    requires
        t.wf(),
    ensures
        token_decodes(token_bytes(t)),
        parse_token(token_bytes(t)) == t,
{
    lemma_auto_spec_u64_to_from_le_bytes();
    let s = token_bytes(t);
    assert(s.subrange(1, 9) =~= spec_u64_to_le_bytes(t.total_supply));
    assert(s.subrange(9, 17) =~= spec_u64_to_le_bytes(t.unlocked_supply));
    assert(s.subrange(17, 25) =~= spec_u64_to_le_bytes(t.locked_supply));
    assert(s.subrange(25, 29) =~= t.symbol);
    assert(parse_token(s) =~= t);
}

/// Re-encoding a decoded token record reproduces the buffer prefix: the
/// codec loses nothing a buffer holds.
pub proof fn lemma_token_reencode(s: Seq<u8>)
    requires
        token_decodes(s),
    ensures
        token_bytes(parse_token(s)) == s.subrange(0, TOKEN_LEN as int),
{
    lemma_auto_spec_u64_to_from_le_bytes();
    let t = parse_token(s);
    assert(spec_u64_to_le_bytes(spec_u64_from_le_bytes(s.subrange(1, 9))) == s.subrange(1, 9));
    assert(spec_u64_to_le_bytes(spec_u64_from_le_bytes(s.subrange(9, 17))) == s.subrange(9, 17));
    assert(spec_u64_to_le_bytes(spec_u64_from_le_bytes(s.subrange(17, 25))) == s.subrange(17, 25));
    assert(token_bytes(t) =~= s.subrange(0, TOKEN_LEN as int));
}

/// The encoded form of a pool record: flag, reserve, last burn time.
pub open spec fn pool_bytes(p: PoolView) -> Seq<u8> {
    seq![flag_byte(p.is_initialized)] + spec_u64_to_le_bytes(p.reserve) + spec_i64_to_le_bytes(
        p.last_burn_timestamp,
    )
}

/// The pool record a well-formed buffer prefix spells.
pub open spec fn parse_pool(s: Seq<u8>) -> PoolView
    recommends
        s.len() >= POOL_LEN,
{
    PoolView {
        is_initialized: s[0] == 1u8,
        reserve: spec_u64_from_le_bytes(s.subrange(1, 9)),
        last_burn_timestamp: spec_i64_from_le_bytes(s.subrange(9, 17)),
    }
}

/// Whether a buffer decodes as a pool record.
pub open spec fn pool_decodes(s: Seq<u8>) -> bool {
    s.len() >= POOL_LEN && valid_flag(s[0])
}

/// Decodes a pool record from the first [`POOL_LEN`] bytes of `src`.
pub fn decode_pool(src: &[u8]) -> (r: Result<LiquidityPool, DecodeError>)
    ensures
        match r {
            Ok(p) => pool_decodes(src@) && p@ == parse_pool(src@),
            Err(DecodeError::TooShort) => src@.len() < POOL_LEN,
            Err(DecodeError::Malformed) => src@.len() >= POOL_LEN && !valid_flag(src@[0]),
        },
{
    if src.len() < POOL_LEN {
        return Err(DecodeError::TooShort);
    }
    let flag = src[0];
    if flag > 1 {
        return Err(DecodeError::Malformed);
    }
    let reserve = u64_from_le_bytes(slice_subrange(src, 1, 9));
    let last_burn_timestamp = u64_from_le_bytes(slice_subrange(src, 9, 17)) as i64;
    Ok(LiquidityPool { is_initialized: flag == 1, reserve, last_burn_timestamp })
}

/// Encodes a pool record into the first [`POOL_LEN`] bytes of `dst`,
/// leaving the rest of the buffer unchanged.
pub fn encode_pool(p: &LiquidityPool, dst: &mut Vec<u8>)
    requires
        old(dst)@.len() >= POOL_LEN,
    ensures
        final(dst)@.len() == old(dst)@.len(),
        final(dst)@ =~= pool_bytes(p@) + old(dst)@.skip(POOL_LEN as int),
{
    dst[0] = if p.is_initialized {
        1u8
    } else {
        0u8
    };
    let reserve = u64_to_le_bytes(p.reserve);
    write_bytes(dst, 1, reserve.as_slice());
    let stamp = u64_to_le_bytes(p.last_burn_timestamp as u64);
    write_bytes(dst, 9, stamp.as_slice());
    assert(dst@ =~= pool_bytes(p@) + old(dst)@.skip(POOL_LEN as int));
}

/// Round trip: decoding an encoded pool record gives the record back,
/// for every record value.
pub proof fn lemma_pool_round_trip(p: PoolView)
    ensures
        pool_decodes(pool_bytes(p)),
        parse_pool(pool_bytes(p)) == p,
{
    lemma_auto_spec_u64_to_from_le_bytes();
    lemma_i64_le_bytes_round_trip(p.last_burn_timestamp);
    let s = pool_bytes(p);
    assert(s.subrange(1, 9) =~= spec_u64_to_le_bytes(p.reserve));
    assert(s.subrange(9, 17) =~= spec_i64_to_le_bytes(p.last_burn_timestamp));
    assert(parse_pool(s) =~= p);
}

/// Re-encoding a decoded pool record reproduces the buffer prefix.
pub proof fn lemma_pool_reencode(s: Seq<u8>)
    requires
        pool_decodes(s),
    ensures
        pool_bytes(parse_pool(s)) == s.subrange(0, POOL_LEN as int),
{
    lemma_auto_spec_u64_to_from_le_bytes();
    let y = spec_u64_from_le_bytes(s.subrange(9, 17));
    assert(((y as i64) as u64) == y) by (bit_vector);
    assert(spec_u64_to_le_bytes(spec_u64_from_le_bytes(s.subrange(1, 9))) == s.subrange(1, 9));
    assert(pool_bytes(parse_pool(s)) =~= s.subrange(0, POOL_LEN as int));
}

/// The encoded form of a whale record: holder address, largest purchase.
pub open spec fn whale_bytes(w: WhaleView) -> Seq<u8> {
    w.kingwhale_account + spec_u64_to_le_bytes(w.largest_purchase)
}

/// The whale record a buffer prefix spells.
pub open spec fn parse_whale(s: Seq<u8>) -> WhaleView
    recommends
        s.len() >= WHALE_LEN,
{
    WhaleView {
        kingwhale_account: s.subrange(0, 32),
        largest_purchase: spec_u64_from_le_bytes(s.subrange(32, 40)),
    }
}

/// Whether a buffer decodes as a whale record.  Every byte pattern of
/// the full width is a valid record.
pub open spec fn whale_decodes(s: Seq<u8>) -> bool {
    s.len() >= WHALE_LEN
}

/// Decodes a whale record from the first [`WHALE_LEN`] bytes of `src`.
pub fn decode_whale(src: &[u8]) -> (r: Result<KingWhale, DecodeError>)
    ensures
        match r {
            Ok(w) => whale_decodes(src@) && w@ =~= parse_whale(src@) && w@.wf(),
            Err(DecodeError::TooShort) => src@.len() < WHALE_LEN,
            Err(DecodeError::Malformed) => false,
        },
{
    if src.len() < WHALE_LEN {
        return Err(DecodeError::TooShort);
    }
    let kingwhale_account = slice_to_vec(slice_subrange(src, 0, 32));
    let largest_purchase = u64_from_le_bytes(slice_subrange(src, 32, 40));
    let w = KingWhale { kingwhale_account, largest_purchase };
    assert(w@ =~= parse_whale(src@));
    Ok(w)
}

/// Encodes a whale record into the first [`WHALE_LEN`] bytes of `dst`,
/// leaving the rest of the buffer unchanged.
pub fn encode_whale(w: &KingWhale, dst: &mut Vec<u8>)
    requires
        w@.wf(),
        old(dst)@.len() >= WHALE_LEN,
    ensures
        final(dst)@.len() == old(dst)@.len(),
        final(dst)@ =~= whale_bytes(w@) + old(dst)@.skip(WHALE_LEN as int),
{
    write_bytes(dst, 0, w.kingwhale_account.as_slice());
    let largest = u64_to_le_bytes(w.largest_purchase);
    write_bytes(dst, 32, largest.as_slice());
    assert(dst@ =~= whale_bytes(w@) + old(dst)@.skip(WHALE_LEN as int));
}

/// Round trip: decoding an encoded whale record gives the record back,
/// for every well-formed record value.
pub proof fn lemma_whale_round_trip(w: WhaleView)
    requires
        w.wf(),
    ensures
        whale_decodes(whale_bytes(w)),
        parse_whale(whale_bytes(w)) == w,
{
    lemma_auto_spec_u64_to_from_le_bytes();
    let s = whale_bytes(w);
    assert(s.subrange(0, 32) =~= w.kingwhale_account);
    assert(s.subrange(32, 40) =~= spec_u64_to_le_bytes(w.largest_purchase));
    assert(parse_whale(s) =~= w);
}

/// Re-encoding a decoded whale record reproduces the buffer prefix.
pub proof fn lemma_whale_reencode(s: Seq<u8>)
    requires
        whale_decodes(s),
    ensures
        whale_bytes(parse_whale(s)) == s.subrange(0, WHALE_LEN as int),
{
    lemma_auto_spec_u64_to_from_le_bytes();
    assert(spec_u64_to_le_bytes(spec_u64_from_le_bytes(s.subrange(32, 40))) == s.subrange(32, 40));
    assert(whale_bytes(parse_whale(s)) =~= s.subrange(0, WHALE_LEN as int));
}

/// The encoded form of a blacklist record: flag, banned address.
pub open spec fn blacklist_bytes(b: BlacklistView) -> Seq<u8> {
    seq![flag_byte(b.is_initialized)] + b.banned_address
}

/// The blacklist record a well-formed buffer prefix spells.
pub open spec fn parse_blacklist(s: Seq<u8>) -> BlacklistView
    recommends
        s.len() >= BLACKLIST_LEN,
{
    BlacklistView { is_initialized: s[0] == 1u8, banned_address: s.subrange(1, 33) }
}

/// Whether a buffer decodes as a blacklist record.
pub open spec fn blacklist_decodes(s: Seq<u8>) -> bool {
    s.len() >= BLACKLIST_LEN && valid_flag(s[0])
}

/// Decodes a blacklist record from the first [`BLACKLIST_LEN`] bytes of
/// `src`.
pub fn decode_blacklist(src: &[u8]) -> (r: Result<Blacklist, DecodeError>)
    ensures
        match r {
            Ok(b) => blacklist_decodes(src@) && b@ =~= parse_blacklist(src@) && b@.wf(),
            Err(DecodeError::TooShort) => src@.len() < BLACKLIST_LEN,
            Err(DecodeError::Malformed) => src@.len() >= BLACKLIST_LEN && !valid_flag(src@[0]),
        },
{
    if src.len() < BLACKLIST_LEN {
        return Err(DecodeError::TooShort);
    }
    let flag = src[0];
    if flag > 1 {
        return Err(DecodeError::Malformed);
    }
    let banned_address = slice_to_vec(slice_subrange(src, 1, 33));
    let b = Blacklist { is_initialized: flag == 1, banned_address };
    assert(b@ =~= parse_blacklist(src@));
    Ok(b)
}

/// Encodes a blacklist record into the first [`BLACKLIST_LEN`] bytes of
/// `dst`, leaving the rest of the buffer unchanged.
pub fn encode_blacklist(b: &Blacklist, dst: &mut Vec<u8>)
    requires
        b@.wf(),
        old(dst)@.len() >= BLACKLIST_LEN,
    ensures
        final(dst)@.len() == old(dst)@.len(),
        final(dst)@ =~= blacklist_bytes(b@) + old(dst)@.skip(BLACKLIST_LEN as int),
{
    dst[0] = if b.is_initialized {
        1u8
    } else {
        0u8
    };
    write_bytes(dst, 1, b.banned_address.as_slice());
    assert(dst@ =~= blacklist_bytes(b@) + old(dst)@.skip(BLACKLIST_LEN as int));
}

/// Round trip: decoding an encoded blacklist record gives the record
/// back, for every well-formed record value.
pub proof fn lemma_blacklist_round_trip(b: BlacklistView)
    requires
        b.wf(),
    ensures
        blacklist_decodes(blacklist_bytes(b)),
        parse_blacklist(blacklist_bytes(b)) == b,
{
    let s = blacklist_bytes(b);
    assert(s.subrange(1, 33) =~= b.banned_address);
    assert(parse_blacklist(s) =~= b);
}

/// Re-encoding a decoded blacklist record reproduces the buffer prefix.
pub proof fn lemma_blacklist_reencode(s: Seq<u8>)
    requires
        blacklist_decodes(s),
    ensures
        blacklist_bytes(parse_blacklist(s)) == s.subrange(0, BLACKLIST_LEN as int),
{
    assert(blacklist_bytes(parse_blacklist(s)) =~= s.subrange(0, BLACKLIST_LEN as int));
}

/// The encoded form of a wallets record: marketing address, staff
/// address.
pub open spec fn wallets_bytes(w: WalletsView) -> Seq<u8> {
    w.marketing_wallet + w.staff_wallet
}

/// The wallets record a buffer prefix spells.
pub open spec fn parse_wallets(s: Seq<u8>) -> WalletsView
    recommends
        s.len() >= WALLETS_LEN,
{
    WalletsView { marketing_wallet: s.subrange(0, 32), staff_wallet: s.subrange(32, 64) }
}

/// Whether a buffer decodes as a wallets record.  Every byte pattern of
/// the full width is a valid record.
pub open spec fn wallets_decodes(s: Seq<u8>) -> bool {
    s.len() >= WALLETS_LEN
}

/// Decodes a wallets record from the first [`WALLETS_LEN`] bytes of
/// `src`.
pub fn decode_wallets(src: &[u8]) -> (r: Result<Wallets, DecodeError>)
    ensures
        match r {
            Ok(w) => wallets_decodes(src@) && w@ =~= parse_wallets(src@) && w@.wf(),
            Err(DecodeError::TooShort) => src@.len() < WALLETS_LEN,
            Err(DecodeError::Malformed) => false,
        },
{
    if src.len() < WALLETS_LEN {
        return Err(DecodeError::TooShort);
    }
    let marketing_wallet = slice_to_vec(slice_subrange(src, 0, 32));
    let staff_wallet = slice_to_vec(slice_subrange(src, 32, 64));
    let w = Wallets { marketing_wallet, staff_wallet };
    assert(w@ =~= parse_wallets(src@));
    Ok(w)
}

/// Encodes a wallets record into the first [`WALLETS_LEN`] bytes of
/// `dst`, leaving the rest of the buffer unchanged.
pub fn encode_wallets(w: &Wallets, dst: &mut Vec<u8>)
    requires
        w@.wf(),
        old(dst)@.len() >= WALLETS_LEN,
    ensures
        final(dst)@.len() == old(dst)@.len(),
        final(dst)@ =~= wallets_bytes(w@) + old(dst)@.skip(WALLETS_LEN as int),
{
    write_bytes(dst, 0, w.marketing_wallet.as_slice());
    write_bytes(dst, 32, w.staff_wallet.as_slice());
    assert(dst@ =~= wallets_bytes(w@) + old(dst)@.skip(WALLETS_LEN as int));
}

/// Round trip: decoding an encoded wallets record gives the record back,
/// for every well-formed record value.
pub proof fn lemma_wallets_round_trip(w: WalletsView)
    requires
        w.wf(),
    ensures
        wallets_decodes(wallets_bytes(w)),
        parse_wallets(wallets_bytes(w)) == w,
{
    let s = wallets_bytes(w);
    assert(s.subrange(0, 32) =~= w.marketing_wallet);
    assert(s.subrange(32, 64) =~= w.staff_wallet);
    assert(parse_wallets(s) =~= w);
}

/// Re-encoding a decoded wallets record reproduces the buffer prefix.
pub proof fn lemma_wallets_reencode(s: Seq<u8>)
    requires
        wallets_decodes(s),
    ensures
        wallets_bytes(parse_wallets(s)) == s.subrange(0, WALLETS_LEN as int),
{
    assert(wallets_bytes(parse_wallets(s)) =~= s.subrange(0, WALLETS_LEN as int));
}

} // verus!
