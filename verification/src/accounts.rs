//! The record types of the vesting ledger: the company-level plan, the
//! per-beneficiary grant, the account bundles each call presents, and the
//! error kinds.

use vstd::prelude::*;

verus! {

/// Identifier of an account on the host ledger: a signer identity, an asset
/// mint, or a custody (token) account address. The logic only ever compares
/// identifiers for equality, so a plain numeric value models them.
#[derive(Clone, Copy, Debug, PartialEq, Eq, Structural)]
pub struct AccountId {
    pub key: u64,
}

/// One vesting plan per company: who may create grants under it, which asset
/// is vested, and which custody account funds the claims. The two nonce
/// values are produced by the host's deterministic address derivation at
/// creation time and persisted so later calls can re-derive and verify the
/// same addresses.
#[derive(Debug)]
pub struct VestingAccount {
    /// Identity authorized to create grants under this plan.
    pub owner: AccountId,
    /// Identifier of the fungible asset being vested.
    pub mint: AccountId,
    /// Custody account holding the deposited tokens for this plan.
    pub treasury_token_account: AccountId,
    /// Human-readable unique key, at most 50 bytes; the seed from which the
    /// plan's own address and its treasury's address are derived.
    pub company_name: Vec<u8>,
    /// Disambiguation nonce of the treasury's derived address.
    pub treasury_bump: u8,
    /// Disambiguation nonce of the plan's derived address.
    pub bump: u8,
}

/// One vesting grant per (plan, beneficiary) pair: the schedule, the total
/// allocation, and how much has been paid out so far.
#[derive(Clone, Copy, Debug, PartialEq, Eq, Structural)]
pub struct EmployeeAccount {
    /// Identity entitled to the vested tokens.
    pub beneficiary: AccountId,
    /// Vesting window start, Unix-epoch seconds.
    pub start_time: i64,
    /// Vesting window end, Unix-epoch seconds. May equal `start_time`; such
    /// a grant is never claimable.
    pub end_time: i64,
    /// Earliest time any claim is permitted, independent of the window.
    pub cliff_time: i64,
    /// Back-reference to the owning plan.
    pub vesting_account: usize,
    /// Total tokens allocated to this beneficiary over the full window.
    pub total_amount: u64,
    /// Cumulative tokens already paid out; starts at 0, never decreases,
    /// never exceeds `total_amount`.
    pub total_withdrawn: u64,
    /// Disambiguation nonce of this grant's derived address.
    pub bump: u8,
}

/// The accounts presented to a plan-creation call: the creator's identity,
/// the asset to vest, the freshly allocated treasury custody account, and the
/// nonces the host's address derivation produced for it.
#[derive(Clone, Copy, Debug, PartialEq, Eq, Structural)]
pub struct CreateVestingAccount {
    pub signer: AccountId,
    pub mint: AccountId,
    pub treasury_token_account: AccountId,
    pub treasury_bump: u8,
    pub bump: u8,
}

/// The accounts presented to a grant-creation call: the calling plan owner,
/// the beneficiary, the plan the grant belongs to, and the nonce of the
/// grant's derived address.
#[derive(Clone, Copy, Debug, PartialEq, Eq, Structural)]
pub struct CreateEmployeeAccount {
    pub owner: AccountId,
    pub beneficiary: AccountId,
    pub vesting_account: usize,
    pub bump: u8,
}

/// The accounts presented to a claim call: the calling beneficiary, the grant
/// and plan being claimed against, the asset and custody accounts the caller
/// believes are bound to that plan, the beneficiary's receiving account, and
/// the asset's decimal precision as read from the mint by the host.
#[derive(Clone, Copy, Debug, PartialEq, Eq, Structural)]
pub struct ClaimTokens {
    pub beneficiary: AccountId,
    pub employee_account: usize,
    pub vesting_account: usize,
    pub mint: AccountId,
    pub treasury_token_account: AccountId,
    pub employee_token_account: AccountId,
    pub mint_decimals: u8,
}

/// Every way a call can be rejected. Each rejection leaves the ledger
/// unchanged.
#[derive(Clone, Copy, Debug, PartialEq, Eq, Structural)]
pub enum ErrorCode {
    /// Caller identity does not match the required owner or beneficiary
    /// binding, or a referenced account does not match a stored binding.
    Unauthorized,
    /// Derivation collision: a plan or grant with the same key already
    /// exists.
    AlreadyExists,
    /// The claim came before the grant's cliff time.
    ClaimNotAvailableYet,
    /// The grant's vesting window is empty (`end_time == start_time`).
    InvalidVestingPeriod,
    /// The vested-amount multiplication cannot be represented.
    CalculationOverflow,
    /// The computed claimable amount is zero.
    NothingToClaim,
    /// The host's asset-transfer capability reported failure; the grant was
    /// left unchanged and the amount stays claimable.
    TransferFailed,
}

} // verus!
