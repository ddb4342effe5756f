//! The claim engine: authorizes a beneficiary's claim against a grant and
//! its plan's treasury, computes the claimable amount, and — once the host's
//! asset-transfer capability has reported success — commits the withdrawal.
//!
//! A claim runs in two steps, transfer strictly between them. `claim_tokens`
//! decides: it either rejects, leaving everything unchanged, or returns the
//! exact transfer the host must perform. The host moves the tokens; only on
//! reported success does it call `commit_claim`, so a failed transfer can
//! never be masked by an already-persisted withdrawal increment.

use vstd::prelude::*;
use crate::accounts::{AccountId, ClaimTokens, EmployeeAccount, ErrorCode};
use crate::ledger::VestingLedger;
use crate::vesting::{claimable_amount, claimable_amount_decision, claimable_math, lemma_vested_bounds, vested_amount_decision, vested_math};

verus! {

/// The disbursement a successful claim decision demands of the host's
/// asset-transfer capability: move exactly `amount` units of `mint`, at
/// `decimals` precision, from the plan's treasury to the beneficiary's
/// receiving account; then commit against grant `grant`.
#[derive(Clone, Copy, Debug, PartialEq, Eq, Structural)]
pub struct TransferRequest {
    pub from: AccountId,
    pub to: AccountId,
    pub mint: AccountId,
    pub amount: u64,
    pub decimals: u8,
    pub grant: usize,
}

/// The authorization gate: the grant and plan must exist, the caller must be
/// the grant's stored beneficiary, the grant must point at the supplied
/// plan, and the treasury and mint presented for the transfer must match the
/// plan's stored bindings. Any mismatch rejects the claim before any
/// arithmetic.
pub open spec fn claim_authorized(ledger: VestingLedger, ctx: ClaimTokens) -> bool {
    &&& ctx.employee_account < ledger.grants.len()
    &&& ctx.vesting_account < ledger.plans.len()
    &&& ledger.grants[ctx.employee_account as int].beneficiary == ctx.beneficiary
    &&& ledger.grants[ctx.employee_account as int].vesting_account == ctx.vesting_account
    &&& ledger.plans[ctx.vesting_account as int].treasury_token_account == ctx.treasury_token_account
    &&& ledger.plans[ctx.vesting_account as int].mint == ctx.mint
}

/// What a claim returns for a given ledger, account bundle and instant:
/// `Unauthorized` on any binding mismatch, then the grant-local rejections
/// in order (cliff, empty window, overflow, nothing to claim), else the
/// transfer the host must perform.
pub open spec fn claim_decision(ledger: VestingLedger, ctx: ClaimTokens, now: i64) -> Result<TransferRequest, ErrorCode> {
    if !claim_authorized(ledger, ctx) {
        Err(ErrorCode::Unauthorized)
    } else {
        let grant = ledger.grants[ctx.employee_account as int];
        let plan = ledger.plans[ctx.vesting_account as int];
        match claimable_amount_decision(grant, now) {
            Err(e) => Err(e),
            Ok(amount) => Ok((TransferRequest {
                from: plan.treasury_token_account,
                to: ctx.employee_token_account,
                mint: plan.mint,
                amount: amount,
                decimals: ctx.mint_decimals,
                grant: ctx.employee_account,
            })),
        }
    }
}

/// Decides a claim: checks every binding, the cliff, the window, and the
/// arithmetic, and returns either the exact rejection or the transfer owed.
/// Reads only; the ledger changes solely through `commit_claim`, after the
/// host has performed the returned transfer.
///
/// A returned request always fits the grant it names: committing it keeps
/// the withdrawn total within the allocation.
pub fn claim_tokens(ledger: &VestingLedger, ctx: &ClaimTokens, now: i64) -> (r: Result<TransferRequest, ErrorCode>)
    ensures
        r == claim_decision(*ledger, *ctx, now),
        r matches Ok(req) ==> {
            &&& req.grant < ledger.grants.len()
            &&& req.amount > 0
            &&& ledger.grants[req.grant as int].total_withdrawn + req.amount
                <= ledger.grants[req.grant as int].total_amount
        },
{
    if ctx.employee_account >= ledger.grants.len() {
        return Err(ErrorCode::Unauthorized);
    }
    if ctx.vesting_account >= ledger.plans.len() {
        return Err(ErrorCode::Unauthorized);
    }
    let grant = &ledger.grants[ctx.employee_account];
    let plan = &ledger.plans[ctx.vesting_account];
    if grant.beneficiary != ctx.beneficiary {
        return Err(ErrorCode::Unauthorized);
    }
    if grant.vesting_account != ctx.vesting_account {
        return Err(ErrorCode::Unauthorized);
    }
    if plan.treasury_token_account != ctx.treasury_token_account {
        return Err(ErrorCode::Unauthorized);
    }
    if plan.mint != ctx.mint {
        return Err(ErrorCode::Unauthorized);
    }
    match claimable_amount(grant, now) {
        Err(e) => Err(e),
        Ok(amount) => {
            proof {
                lemma_claimable_fits(*grant, now, amount);
            }
            Ok(TransferRequest {
                from: plan.treasury_token_account,
                to: ctx.employee_token_account,
                mint: plan.mint,
                amount,
                decimals: ctx.mint_decimals,
                grant: ctx.employee_account,
            })
        },
    }
}

/// A granted claimable amount is positive and, added to what was already
/// withdrawn, stays within the grant's allocation: disbursing it can never
/// overdraw the entitlement.
pub proof fn lemma_claimable_fits(grant: EmployeeAccount, now: i64, amount: u64)
    requires
        claimable_amount_decision(grant, now) == Ok::<u64, ErrorCode>(amount),
    ensures
        0 < amount,
        grant.total_withdrawn + amount <= grant.total_amount,
{
    let vested = vested_math(grant.total_amount, grant.start_time, grant.end_time, now);
    lemma_vested_bounds(grant.total_amount, grant.start_time, grant.end_time, now);
    assert(vested_amount_decision(grant, now) == Ok::<u64, ErrorCode>(vested as u64));
    assert(amount == claimable_math(vested as u64, grant.total_withdrawn));
}

/// The grant after a successful claim of `amount`: the withdrawal total
/// grows by exactly the claimed amount, everything else stays as it was.
pub open spec fn grant_after_claim(grant: EmployeeAccount, amount: u64) -> EmployeeAccount {
    EmployeeAccount { total_withdrawn: (grant.total_withdrawn + amount) as u64, ..grant }
}

/// Commits a claim the host has successfully disbursed: adds the claimed
/// amount to the grant's withdrawal total. Nothing else in the ledger
/// changes. The requirement is exactly what `claim_tokens` guarantees of a
/// returned request, so the withdrawal total never exceeds the allocation.
pub fn commit_claim(ledger: &mut VestingLedger, grant: usize, amount: u64)
    requires
        grant < old(ledger).grants@.len(),
        old(ledger).grants@[grant as int].total_withdrawn + amount
            <= old(ledger).grants@[grant as int].total_amount,
    ensures
        final(ledger).plans == old(ledger).plans,
        final(ledger).grants@ == old(ledger).grants@.update(
            grant as int,
            grant_after_claim(old(ledger).grants@[grant as int], amount),
        ),
        old(ledger).wf() ==> final(ledger).wf(),
{
    let mut g: EmployeeAccount = ledger.grants[grant];
    g.total_withdrawn = g.total_withdrawn + amount;
    ledger.grants.set(grant, g);
}

/// Claiming is idempotent: once a successful claim is committed, the same
/// claim at the same instant finds nothing left and is rejected with
/// `NothingToClaim` — until more time passes, no second disbursement is
/// possible.
pub proof fn lemma_claim_idempotent(
    before: VestingLedger,
    after: VestingLedger,
    ctx: ClaimTokens,
    now: i64,
    req: TransferRequest,
)
    requires
        claim_decision(before, ctx, now) == Ok::<TransferRequest, ErrorCode>(req),
        after.plans@ == before.plans@,
        after.grants@ == before.grants@.update(
            req.grant as int,
            grant_after_claim(before.grants@[req.grant as int], req.amount),
        ),
    ensures
        claim_decision(after, ctx, now) == Err::<TransferRequest, ErrorCode>(ErrorCode::NothingToClaim),
{
    let gi = ctx.employee_account as int;
    let g1 = before.grants[gi];
    assert(req.grant == ctx.employee_account);
    lemma_claimable_fits(g1, now, req.amount);
    lemma_vested_bounds(g1.total_amount, g1.start_time, g1.end_time, now);
    let vested = vested_math(g1.total_amount, g1.start_time, g1.end_time, now);
    let g2 = after.grants[gi];
    assert(g2 == grant_after_claim(g1, req.amount));
    assert(req.amount == claimable_math(vested as u64, g1.total_withdrawn));
    assert(g2.total_withdrawn == vested as u64);
    assert(claim_authorized(after, ctx));
    assert(vested_amount_decision(g2, now) == Ok::<u64, ErrorCode>(vested as u64));
    assert(claimable_math(vested as u64, g2.total_withdrawn) == 0);
}

/// The sum of a sequence of claimed amounts.
pub open spec fn total_claimed(amounts: Seq<u64>) -> int
    decreases amounts.len(),
{
    if amounts.len() == 0 {
        0
    } else {
        total_claimed(amounts.drop_last()) + amounts.last()
    }
}

/// The grant after the claims in `amounts` have been committed in order.
pub open spec fn grant_after_claims(grant: EmployeeAccount, amounts: Seq<u64>) -> EmployeeAccount
    decreases amounts.len(),
{
    if amounts.len() == 0 {
        grant
    } else {
        grant_after_claim(grant_after_claims(grant, amounts.drop_last()), amounts.last())
    }
}

/// Whether each claim in `amounts`, committed in order, satisfies what
/// `claim_tokens` guarantees of a granted request: the amount, added to the
/// withdrawals recorded so far, stays within the allocation.
pub open spec fn claims_valid(grant: EmployeeAccount, amounts: Seq<u64>) -> bool
    decreases amounts.len(),
{
    if amounts.len() == 0 {
        true
    } else {
        let prev = grant_after_claims(grant, amounts.drop_last());
        &&& claims_valid(grant, amounts.drop_last())
        &&& prev.total_withdrawn + amounts.last() <= prev.total_amount
    }
}

/// Conservation: after any sequence of successful claims, the grant's
/// withdrawal total has grown by exactly the sum of the claimed amounts,
/// nothing else in the grant has changed, and the total never exceeds the
/// allocation.
pub proof fn lemma_claims_conserve(grant: EmployeeAccount, amounts: Seq<u64>)
    requires
        grant.total_withdrawn <= grant.total_amount,
        claims_valid(grant, amounts),
    ensures
        grant_after_claims(grant, amounts).total_withdrawn
            == grant.total_withdrawn + total_claimed(amounts),
        grant_after_claims(grant, amounts).total_withdrawn <= grant.total_amount,
        grant_after_claims(grant, amounts) == (EmployeeAccount {
            total_withdrawn: grant_after_claims(grant, amounts).total_withdrawn,
            ..grant
        }),
    decreases amounts.len(),
{
    if amounts.len() > 0 {
        lemma_claims_conserve(grant, amounts.drop_last());
    }
}

} // verus!
