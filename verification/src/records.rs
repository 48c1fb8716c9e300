//! The five fixed-width record kinds and their mathematical views.
//!
//! Addresses are plain 32-byte values held in `Vec<u8>`; the hosting
//! runtime's key type carries no more information than its bytes.

use vstd::prelude::*;

verus! {

/// Length in bytes of an address.
pub const ADDRESS_LEN: usize = 32;

/// Length in bytes of the token symbol field.
pub const SYMBOL_LEN: usize = 4;

/// An address is exactly 32 bytes.
pub open spec fn is_address(a: Seq<u8>) -> bool {
    a.len() == ADDRESS_LEN
}

/// The all-zero address, which marks an uninitialized holder slot.
pub open spec fn zero_address() -> Seq<u8> {
    Seq::new(ADDRESS_LEN as nat, |i: int| 0u8)
}

/// Byte-exact equality of two byte strings.
pub fn bytes_eq(a: &[u8], b: &[u8]) -> (r: bool)
    ensures
        r == (a@ =~= b@),
{
    if a.len() != b.len() {
        assert(a@.len() != b@.len());
        return false;
    }
    let n = a.len();
    let mut i: usize = 0;
    while i < n
        invariant
            n == a@.len() == b@.len(),
            i <= n,
            forall|j: int| 0 <= j < i ==> a@[j] == b@[j],
        decreases n - i,
    {
        if a[i] != b[i] {
            assert(a@[i as int] != b@[i as int]);
            return false;
        }
        i = i + 1;
    }
    assert(a@ =~= b@);
    true
}

/// Whether a byte buffer holds the all-zero address.
pub fn is_zero_address(a: &Vec<u8>) -> (r: bool)
    requires
        is_address(a@),
    ensures
        r == (a@ =~= zero_address()),
{
    let n = a.len();
    let mut i: usize = 0;
    while i < n
        invariant
            n == a@.len() == ADDRESS_LEN,
            i <= n,
            forall|j: int| 0 <= j < i ==> a@[j] == 0u8,
        decreases n - i,
    {
        if a[i] != 0u8 {
            assert(a@[i as int] != zero_address()[i as int]);
            return false;
        }
        i = i + 1;
    }
    assert(a@ =~= zero_address());
    true
}

/// The main token ledger record.
///
/// The global `unlocked_supply` counter and the per-account records'
/// counters are deliberately independent pieces of bookkeeping; no
/// invariant ties their sum together.
#[derive(Debug, Clone, PartialEq, Eq)]
pub struct AresToken {
    pub is_initialized: bool,
    pub total_supply: u64,
    pub unlocked_supply: u64,
    pub locked_supply: u64,
    /// Exactly four raw bytes, not a length-prefixed string.
    pub symbol: Vec<u8>,
}

/// Mathematical view of an [`AresToken`] record.
#[verifier::ext_equal]
pub struct TokenView {
    pub is_initialized: bool,
    pub total_supply: u64,
    pub unlocked_supply: u64,
    pub locked_supply: u64,
    pub symbol: Seq<u8>,
}

impl View for AresToken {
    type V = TokenView;

    open spec fn view(&self) -> TokenView {
        TokenView {
            is_initialized: self.is_initialized,
            total_supply: self.total_supply,
            unlocked_supply: self.unlocked_supply,
            locked_supply: self.locked_supply,
            symbol: self.symbol@,
        }
    }
}

impl TokenView {
    /// A token record is well formed when its symbol has its fixed width.
    pub open spec fn wf(self) -> bool {
        self.symbol.len() == SYMBOL_LEN
    }
}

impl AresToken {
    pub fn is_initialized(&self) -> (r: bool)
        ensures
            r == self@.is_initialized,
    {
        self.is_initialized
    }
}

/// The liquidity pool record.
#[derive(Debug, Clone, PartialEq, Eq)]
pub struct LiquidityPool {
    pub is_initialized: bool,
    pub reserve: u64,
    pub last_burn_timestamp: i64,
}

/// Mathematical view of a [`LiquidityPool`] record.
#[verifier::ext_equal]
pub struct PoolView {
    pub is_initialized: bool,
    pub reserve: u64,
    pub last_burn_timestamp: i64,
}

impl View for LiquidityPool {
    type V = PoolView;

    open spec fn view(&self) -> PoolView {
        PoolView {
            is_initialized: self.is_initialized,
            reserve: self.reserve,
            last_burn_timestamp: self.last_burn_timestamp,
        }
    }
}

impl LiquidityPool {
    pub fn is_initialized(&self) -> (r: bool)
        ensures
            r == self@.is_initialized,
    {
        self.is_initialized
    }
}

/// The record tracking the single largest purchase seen so far.
#[derive(Debug, Clone, PartialEq, Eq)]
pub struct KingWhale {
    /// The holder credited with the largest purchase; the all-zero
    /// address while uninitialized.
    pub kingwhale_account: Vec<u8>,
    pub largest_purchase: u64,
}

/// Mathematical view of a [`KingWhale`] record.
#[verifier::ext_equal]
pub struct WhaleView {
    pub kingwhale_account: Seq<u8>,
    pub largest_purchase: u64,
}

impl View for KingWhale {
    type V = WhaleView;

    open spec fn view(&self) -> WhaleView {
        WhaleView {
            kingwhale_account: self.kingwhale_account@,
            largest_purchase: self.largest_purchase,
        }
    }
}

impl WhaleView {
    pub open spec fn wf(self) -> bool {
        is_address(self.kingwhale_account)
    }

    /// The whale record counts as initialized once a holder is recorded.
    pub open spec fn is_initialized(self) -> bool {
        !(self.kingwhale_account =~= zero_address())
    }
}

impl KingWhale {
    pub fn is_initialized(&self) -> (r: bool)
        requires
            self@.wf(),
        ensures
            r == self@.is_initialized(),
    {
        !is_zero_address(&self.kingwhale_account)
    }
}

/// The blacklist record: an initialization flag and a fixed capacity of
/// one banned 32-byte address.
#[derive(Debug, Clone, PartialEq, Eq)]
pub struct Blacklist {
    pub is_initialized: bool,
    pub banned_address: Vec<u8>,
}

/// Mathematical view of a [`Blacklist`] record.
#[verifier::ext_equal]
pub struct BlacklistView {
    pub is_initialized: bool,
    pub banned_address: Seq<u8>,
}

impl View for Blacklist {
    type V = BlacklistView;

    open spec fn view(&self) -> BlacklistView {
        BlacklistView {
            is_initialized: self.is_initialized,
            banned_address: self.banned_address@,
        }
    }
}

impl BlacklistView {
    pub open spec fn wf(self) -> bool {
        is_address(self.banned_address)
    }

    /// Membership is exact byte-equality against the acting address, and
    /// only an initialized blacklist bans anyone.
    pub open spec fn bans(self, addr: Seq<u8>) -> bool {
        self.is_initialized && self.banned_address =~= addr
    }
}

impl Blacklist {
    pub fn is_initialized(&self) -> (r: bool)
        ensures
            r == self@.is_initialized,
    {
        self.is_initialized
    }

    /// Whether this blacklist bans the given address.
    pub fn bans(&self, addr: &Vec<u8>) -> (r: bool)
        ensures
            r == self@.bans(addr@),
    {
        self.is_initialized && bytes_eq(self.banned_address.as_slice(), addr.as_slice())
    }
}

/// The tax-distribution wallets record.  Both addresses are adopted
/// together from the first taxed transfer and are immutable once set.
#[derive(Debug, Clone, PartialEq, Eq)]
pub struct Wallets {
    pub marketing_wallet: Vec<u8>,
    pub staff_wallet: Vec<u8>,
}

/// Mathematical view of a [`Wallets`] record.
#[verifier::ext_equal]
pub struct WalletsView {
    pub marketing_wallet: Seq<u8>,
    pub staff_wallet: Seq<u8>,
}

impl View for Wallets {
    type V = WalletsView;

    open spec fn view(&self) -> WalletsView {
        WalletsView {
            marketing_wallet: self.marketing_wallet@,
            staff_wallet: self.staff_wallet@,
        }
    }
}

impl WalletsView {
    pub open spec fn wf(self) -> bool {
        is_address(self.marketing_wallet) && is_address(self.staff_wallet)
    }

    /// The wallets record counts as initialized once both addresses are
    /// set to something other than the zero address.
    pub open spec fn is_initialized(self) -> bool {
        !(self.marketing_wallet =~= zero_address()) && !(self.staff_wallet =~= zero_address())
    }
}

impl Wallets {
    pub fn is_initialized(&self) -> (r: bool)
        requires
            self@.wf(),
        ensures
            r == self@.is_initialized(),
    {
        !is_zero_address(&self.marketing_wallet) && !is_zero_address(&self.staff_wallet)
    }
}

} // verus!
