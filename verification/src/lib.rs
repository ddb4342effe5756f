//! A token-vesting ledger: a company deposits a fungible-token balance into a
//! custody account and schedules linear, time-based unlocking of that balance
//! to individual beneficiaries. Beneficiaries withdraw their unlocked share
//! over time; no beneficiary can withdraw more than their vested entitlement,
//! and nobody but the authorized owner or beneficiary can create records or
//! drain funds.
//!
//! The host environment (persistent record store, signature checks, the asset
//! transfer capability, and the wall clock) is left outside: every function
//! here is a pure decision over plain values, and the caller performs the
//! surrounding I/O.

pub mod accounts;
pub mod claim;
pub mod ledger;
pub mod vesting;
