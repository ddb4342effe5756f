//! The record store of plans and grants. The host environment locates
//! records by deterministically derived addresses and rejects creation on a
//! key collision; here that is modeled as a store keyed by the very seeds the
//! derivation would consume — the company name for a plan, the
//! (beneficiary, plan) pair for a grant — so creation fails exactly when a
//! record with the same seeds already exists.

use vstd::prelude::*;
use crate::accounts::{AccountId, CreateEmployeeAccount, CreateVestingAccount, EmployeeAccount, ErrorCode, VestingAccount};

verus! {

/// All vesting state: every plan and every grant. A record's identifier is
/// its position in its vector; records are never deleted, so positions are
/// stable.
pub struct VestingLedger {
    pub plans: Vec<VestingAccount>,
    pub grants: Vec<EmployeeAccount>,
}

impl VestingLedger {
    /// Every grant points at an existing plan and has withdrawn no more than
    /// its allocation.
    pub open spec fn wf(self) -> bool {
        forall|i: int| 0 <= i < self.grants.len() ==> {
            &&& (#[trigger] self.grants[i]).vesting_account < self.plans.len()
            &&& self.grants[i].total_withdrawn <= self.grants[i].total_amount
        }
    }

    /// An empty ledger: no plans, no grants.
    pub fn new() -> (r: VestingLedger)
        ensures
            r.plans@.len() == 0,
            r.grants@.len() == 0,
    {
        VestingLedger { plans: Vec::new(), grants: Vec::new() }
    }
}

/// Whether some plan already uses this company name, i.e. whether creating
/// another plan from the same seed would collide.
pub open spec fn plan_name_taken(ledger: VestingLedger, name: Seq<u8>) -> bool {
    exists|i: int| 0 <= i < ledger.plans.len() && (#[trigger] ledger.plans[i]).company_name@ == name
}

/// Whether some grant already binds this beneficiary to this plan, i.e.
/// whether creating another grant from the same seeds would collide.
pub open spec fn grant_exists_for(ledger: VestingLedger, beneficiary: AccountId, plan: usize) -> bool {
    exists|i: int| 0 <= i < ledger.grants.len()
        && (#[trigger] ledger.grants[i]).beneficiary == beneficiary
        && ledger.grants[i].vesting_account == plan
}

/// Byte-for-byte equality of two keys.
fn bytes_equal(a: &Vec<u8>, b: &Vec<u8>) -> (r: bool)
    ensures
        r == (a@ == b@),
{
    if a.len() != b.len() {
        assert(a@ != b@);
        return false;
    }
    let n: usize = a.len();
    let mut i: usize = 0;
    while i < n
        invariant
            n == a@.len() == b@.len(),
            i <= n,
            forall|j: int| 0 <= j < i ==> a@[j] == b@[j],
        decreases n - i,
    {
        if a[i] != b[i] {
            assert(a@ != b@);
            return false;
        }
        i = i + 1;
    }
    proof {
        assert(a@ =~= b@);
    }
    true
}

/// Creates the vesting plan for a company: records the creator as owner, the
/// asset being vested, the freshly allocated treasury custody account, the
/// company name, and the derivation nonces — all immutable from then on.
///
/// The company name is the plan's unique key: if a plan with the same name
/// already exists the call is rejected with `AlreadyExists` and nothing
/// changes. On success the new plan's identifier is returned and the grants
/// are untouched. The treasury starts empty; funding it is the host's
/// deposit operation.
pub fn create_vesting_account(
    ledger: &mut VestingLedger,
    ctx: CreateVestingAccount,
    company_name: Vec<u8>,
) -> (r: Result<usize, ErrorCode>)
    requires
        1 <= company_name@.len() <= 50,
    ensures
        match r {
            Ok(id) => {
                &&& !plan_name_taken(*old(ledger), company_name@)
                &&& id == old(ledger).plans@.len()
                &&& final(ledger).plans@ == old(ledger).plans@.push((VestingAccount {
                    owner: ctx.signer,
                    mint: ctx.mint,
                    treasury_token_account: ctx.treasury_token_account,
                    company_name: company_name,
                    treasury_bump: ctx.treasury_bump,
                    bump: ctx.bump,
                }))
                &&& final(ledger).grants@ == old(ledger).grants@
            },
            Err(e) => {
                &&& e == ErrorCode::AlreadyExists
                &&& plan_name_taken(*old(ledger), company_name@)
                &&& *final(ledger) == *old(ledger)
            },
        },
        old(ledger).wf() ==> final(ledger).wf(),
{
    let n: usize = ledger.plans.len();
    let mut i: usize = 0;
    while i < n
        invariant
            *ledger == *old(ledger),
            n == ledger.plans@.len(),
            i <= n,
            forall|j: int| 0 <= j < i ==> (#[trigger] ledger.plans[j]).company_name@ != company_name@,
        decreases n - i,
    {
        if bytes_equal(&ledger.plans[i].company_name, &company_name) {
            assert(plan_name_taken(*ledger, company_name@));
            return Err(ErrorCode::AlreadyExists);
        }
        i = i + 1;
    }
    let plan = VestingAccount {
        owner: ctx.signer,
        mint: ctx.mint,
        treasury_token_account: ctx.treasury_token_account,
        company_name,
        treasury_bump: ctx.treasury_bump,
        bump: ctx.bump,
    };
    ledger.plans.push(plan);
    Ok(n)
}

/// Creates the vesting grant for one beneficiary under a plan, with the
/// supplied schedule recorded verbatim — deliberately, no ordering among
/// `start_time`, `cliff_time` and `end_time` is demanded — and nothing
/// withdrawn yet.
///
/// Only the plan's stored owner may create grants under it: a missing plan
/// or a different caller is rejected with `Unauthorized`. One grant per
/// (beneficiary, plan) pair: a second is rejected with `AlreadyExists`.
/// Every rejection leaves the ledger unchanged; on success the new grant's
/// identifier is returned and the plans are untouched.
pub fn create_employee_account(
    ledger: &mut VestingLedger,
    ctx: CreateEmployeeAccount,
    start_time: i64,
    end_time: i64,
    total_amount: u64,
    cliff_time: i64,
) -> (r: Result<usize, ErrorCode>)
    ensures
        match r {
            Ok(id) => {
                &&& ctx.vesting_account < old(ledger).plans@.len()
                &&& old(ledger).plans@[ctx.vesting_account as int].owner == ctx.owner
                &&& !grant_exists_for(*old(ledger), ctx.beneficiary, ctx.vesting_account)
                &&& id == old(ledger).grants@.len()
                &&& final(ledger).grants@ == old(ledger).grants@.push((EmployeeAccount {
                    beneficiary: ctx.beneficiary,
                    start_time: start_time,
                    end_time: end_time,
                    cliff_time: cliff_time,
                    vesting_account: ctx.vesting_account,
                    total_amount: total_amount,
                    total_withdrawn: 0u64,
                    bump: ctx.bump,
                }))
                &&& final(ledger).plans@ == old(ledger).plans@
            },
            Err(e) => {
                &&& *final(ledger) == *old(ledger)
                &&& if ctx.vesting_account >= old(ledger).plans@.len()
                        || old(ledger).plans@[ctx.vesting_account as int].owner != ctx.owner {
                    e == ErrorCode::Unauthorized
                } else {
                    &&& e == ErrorCode::AlreadyExists
                    &&& grant_exists_for(*old(ledger), ctx.beneficiary, ctx.vesting_account)
                }
            },
        },
        old(ledger).wf() ==> final(ledger).wf(),
{
    if ctx.vesting_account >= ledger.plans.len() {
        return Err(ErrorCode::Unauthorized);
    }
    if ledger.plans[ctx.vesting_account].owner != ctx.owner {
        return Err(ErrorCode::Unauthorized);
    }
    let n: usize = ledger.grants.len();
    let mut i: usize = 0;
    while i < n
        invariant
            *ledger == *old(ledger),
            n == ledger.grants@.len(),
            i <= n,
            ctx.vesting_account < ledger.plans@.len(),
            ledger.plans@[ctx.vesting_account as int].owner == ctx.owner,
            forall|j: int| 0 <= j < i ==> !((#[trigger] ledger.grants[j]).beneficiary == ctx.beneficiary
                && ledger.grants[j].vesting_account == ctx.vesting_account),
        decreases n - i,
    {
        if ledger.grants[i].beneficiary == ctx.beneficiary
            && ledger.grants[i].vesting_account == ctx.vesting_account {
            assert(grant_exists_for(*ledger, ctx.beneficiary, ctx.vesting_account));
            return Err(ErrorCode::AlreadyExists);
        }
        i = i + 1;
    }
    let grant = EmployeeAccount {
        beneficiary: ctx.beneficiary,
        start_time,
        end_time,
        cliff_time,
        vesting_account: ctx.vesting_account,
        total_amount,
        total_withdrawn: 0u64,
        bump: ctx.bump,
    };
    ledger.grants.push(grant);
    Ok(n)
}

} // verus!
