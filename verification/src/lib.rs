//! A deterministic state-transition core for a token ledger.
//!
//! All persistent state lives in caller-supplied byte buffers, one
//! fixed-width binary record per buffer.  A single invocation decodes the
//! records it is handed, validates ownership, rent exemption and the
//! blacklist, runs a fixed sequence of economic steps (genesis mint, pool
//! genesis, time-gated liquidity burn, whale tracking, buy, taxed
//! transfer), and rewrites the buffers in place.  The hosting runtime
//! supplies the buffers, the signer flags, the rent-exemption verdict and
//! the current time; everything the core itself does is verified here.

use vstd::prelude::*;

pub mod codec;
pub mod engine;
pub mod process;
pub mod records;

verus! {

/// Why a record could not be decoded from its buffer.
#[derive(Debug, Clone, Copy, PartialEq, Eq, Structural)]
pub enum DecodeError {
    /// The buffer is shorter than the record's fixed width.
    TooShort,
    /// The record's initialization flag byte is neither 0 nor 1.
    Malformed,
}

/// Why an invocation was aborted.  Buffers written by steps that ran
/// before the failing one stay written; there is no rollback.
#[derive(Debug, Clone, Copy, PartialEq, Eq, Structural)]
pub enum TokenError {
    /// The acting or pool account is not owned by this program.
    WrongOwner,
    /// The acting account does not satisfy the rent-exemption predicate.
    NotRentExempt,
    /// The acting account's address is on the blacklist.
    Blacklisted,
    /// A buy order asked for more than the pool's reserve.
    InsufficientLiquidity,
    /// A transfer asked for more than the unlocked supply.
    InsufficientUnlocked,
    /// A transfer's unlock date lies in the future.
    StillLocked,
    /// A record buffer could not be decoded.
    Decode(DecodeError),
    /// A step needed an account that the caller did not supply.
    MissingAccount,
}

} // verus!
