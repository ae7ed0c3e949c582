//! Properties of the session state machine over whole runs of operations.
use vstd::prelude::*;

use crate::address::{program_address, session_seeds, PROGRAM_ID};
use crate::delegation::{commit_and_undelegate_outcome, commit_outcome, delegate_outcome, reconcile_outcome};
use crate::identity::Identity;
use crate::session::{
    after, close_outcome, initialize_outcome, record_usage_outcome, settle_outcome, FlowstreamError,
    SessionStatus, UsageSession,
};

verus! {

/// One operation on an existing record, with the identities and values it is invoked with.
pub enum Operation {
    RecordUsage { caller: Identity, amount: u64, now: i64 },
    Close { caller: Identity, now: i64 },
    Delegate { payer: Identity, pda: Identity, owner: Identity, service_id: Identity },
    Commit { caller: Identity },
    CommitAndUndelegate { caller: Identity },
    Reconcile,
    Settle { caller: Identity, merchant: Identity, now: i64 },
}

/// The effect of one operation on a record.
pub open spec fn step(s: UsageSession, op: Operation) -> Result<UsageSession, FlowstreamError> {
    match op {
        Operation::RecordUsage { caller, amount, now } => record_usage_outcome(s, caller@, amount, now),
        Operation::Close { caller, now } => close_outcome(s, caller@, now),
        Operation::Delegate { payer, pda, owner, service_id } => delegate_outcome(
            s,
            payer@,
            pda@,
            owner@,
            program_address(session_seeds(owner@, service_id@), PROGRAM_ID@),
        ),
        Operation::Commit { caller } => commit_outcome(s, caller@),
        Operation::CommitAndUndelegate { caller } => commit_and_undelegate_outcome(s, caller@),
        Operation::Reconcile => reconcile_outcome(s),
        Operation::Settle { caller, merchant, now } => settle_outcome(s, caller@, merchant@, now),
    }
}

/// The record after a run of operations, each applied if it succeeds and
/// skipped (changing nothing) if it fails.
pub open spec fn run(s: UsageSession, ops: Seq<Operation>) -> UsageSession
    decreases ops.len(),
{
    if ops.len() == 0 {
        s
    } else {
        let p = run(s, ops.drop_last());
        after(p, step(p, ops.last()))
    }
}

/// One operation keeps the record's invariant and its immutable terms, never
/// lowers the usage counter and never reopens a closed session.
pub proof fn lemma_step_invariant(s: UsageSession, op: Operation)
    requires
        s.wf(),
    ensures
        ({
            let t = after(s, step(s, op));
            &&& t.wf()
            &&& t.owner == s.owner
            &&& t.merchant == s.merchant
            &&& t.deposit_lamports == s.deposit_lamports
            &&& t.rate_lamports_per_unit == s.rate_lamports_per_unit
            &&& t.total_usage >= s.total_usage
            &&& s.status == SessionStatus::Closed ==> t.status == SessionStatus::Closed
            &&& s.is_settled() ==> t.settled_cost_lamports == s.settled_cost_lamports
                && t.refunded_lamports == s.refunded_lamports
        }),
{
}

/// A run of operations keeps the record's invariant and its immutable terms,
/// and a closed session stays closed.
pub proof fn lemma_run_invariant(s: UsageSession, ops: Seq<Operation>)
    requires
        s.wf(),
    ensures
        ({
            let t = run(s, ops);
            &&& t.wf()
            &&& t.owner == s.owner
            &&& t.merchant == s.merchant
            &&& t.deposit_lamports == s.deposit_lamports
            &&& t.rate_lamports_per_unit == s.rate_lamports_per_unit
            &&& s.status == SessionStatus::Closed ==> t.status == SessionStatus::Closed
        }),
    decreases ops.len(),
{
    if ops.len() > 0 {
        lemma_run_invariant(s, ops.drop_last());
        lemma_step_invariant(run(s, ops.drop_last()), ops.last());
    }
}

/// Creation succeeds exactly when deposit and rate are both positive, and the
/// record it makes has them; a zero deposit fails with `InvalidDeposit`, else a
/// zero rate with `InvalidRate`.
pub proof fn lemma_creation_needs_positive_terms(
    owner: Identity,
    service_id: Identity,
    unit: u8,
    decimals: u8,
    deposit: u64,
    rate: u64,
    merchant: Identity,
    bump: u8,
    escrow_bump: u8,
    now: i64,
)
    ensures
        ({
            let o = initialize_outcome(owner, service_id, unit, decimals, deposit, rate, merchant, bump, escrow_bump, now);
            &&& o is Ok <==> (deposit > 0 && rate > 0)
            &&& o matches Ok(s) ==> s.wf() && s.deposit_lamports > 0 && s.rate_lamports_per_unit > 0
                && s.total_usage == 0 && s.status == SessionStatus::Active
            &&& deposit == 0 ==> o == Err::<UsageSession, FlowstreamError>(FlowstreamError::InvalidDeposit)
            &&& deposit > 0 && rate == 0 ==> o == Err::<UsageSession, FlowstreamError>(FlowstreamError::InvalidRate)
        }),
{
}

/// The usage counter never decreases along a run of operations, whatever
/// delegation steps stand between the usage records: the state after the
/// first `i` operations has no more usage than the state after the first `j`.
pub proof fn lemma_usage_never_decreases(s: UsageSession, ops: Seq<Operation>, i: int, j: int)
    requires
        s.wf(),
        0 <= i <= j <= ops.len(),
    ensures
        run(s, ops.take(i)).total_usage <= run(s, ops.take(j)).total_usage,
    decreases j - i,
{
    if i < j {
        lemma_usage_never_decreases(s, ops, i, j - 1);
        assert(ops.take(j).drop_last() =~= ops.take(j - 1));
        lemma_run_invariant(s, ops.take(j - 1));
        lemma_step_invariant(run(s, ops.take(j - 1)), ops.take(j).last());
    }
}

/// Whatever ran before, a successful settlement splits the deposit exactly
/// between merchant and owner, and an escrow that held the deposit is left empty.
pub proof fn lemma_settlement_conserves_deposit(
    s: UsageSession,
    ops: Seq<Operation>,
    caller: Identity,
    merchant: Identity,
    now: i64,
    escrow_lamports: u64,
)
    requires
        s.wf(),
        settle_outcome(run(s, ops), caller@, merchant@, now) is Ok,
    ensures
        ({
            let t = settle_outcome(run(s, ops), caller@, merchant@, now)->Ok_0;
            &&& t.settled_cost_lamports + t.refunded_lamports == s.deposit_lamports
            &&& t.wf()
            &&& t.is_settled()
            &&& escrow_lamports == s.deposit_lamports ==> escrow_lamports - (t.settled_cost_lamports
                + t.refunded_lamports) == 0
        }),
{
    lemma_run_invariant(s, ops);
}

/// A successful settlement pays the merchant the usage cost capped at the deposit.
pub proof fn lemma_settled_cost_is_capped_cost(s: UsageSession, caller: Identity, merchant: Identity, now: i64)
    requires
        s.wf(),
        s.status == SessionStatus::Active,
        caller@ == s.owner@,
        merchant@ == s.merchant@,
        s.delegation == crate::session::DelegationState::NotDelegated,
        s.total_usage * s.rate_lamports_per_unit <= u64::MAX,
    ensures
        ({
            let o = settle_outcome(s, caller@, merchant@, now);
            let cost = s.total_usage * s.rate_lamports_per_unit;
            &&& o is Ok
            &&& o->Ok_0.settled_cost_lamports == (if cost < s.deposit_lamports {
                cost
            } else {
                s.deposit_lamports as int
            })
            &&& o->Ok_0.refunded_lamports == s.deposit_lamports - o->Ok_0.settled_cost_lamports
        }),
{
}

/// A caller other than the bound owner is refused with `Unauthorized`, and the
/// record is left as it was: for recording usage, closing, delegating and
/// committing on every record, and for settling on an active record. An owner
/// who settles towards another merchant is refused with `InvalidMerchant`.
pub proof fn lemma_foreign_caller_refused(
    s: UsageSession,
    caller: Identity,
    amount: u64,
    now: i64,
    pda: Identity,
    service_id: Identity,
    merchant: Identity,
)
    requires
        caller@ != s.owner@,
    ensures
        record_usage_outcome(s, caller@, amount, now) == Err::<UsageSession, FlowstreamError>(FlowstreamError::Unauthorized),
        close_outcome(s, caller@, now) == Err::<UsageSession, FlowstreamError>(FlowstreamError::Unauthorized),
        commit_outcome(s, caller@) == Err::<UsageSession, FlowstreamError>(FlowstreamError::Unauthorized),
        commit_and_undelegate_outcome(s, caller@) == Err::<UsageSession, FlowstreamError>(FlowstreamError::Unauthorized),
        step(s, Operation::Delegate { payer: caller, pda, owner: s.owner, service_id })
            == Err::<UsageSession, FlowstreamError>(FlowstreamError::Unauthorized),
        s.status == SessionStatus::Active ==> settle_outcome(s, caller@, merchant@, now)
            == Err::<UsageSession, FlowstreamError>(FlowstreamError::Unauthorized),
        s.status == SessionStatus::Active && merchant@ != s.merchant@ ==> settle_outcome(s, s.owner@, merchant@, now)
            == Err::<UsageSession, FlowstreamError>(FlowstreamError::InvalidMerchant),
        after(s, record_usage_outcome(s, caller@, amount, now)) == s,
        after(s, close_outcome(s, caller@, now)) == s,
{
}

/// A session is settled at most once: after a successful settlement and any
/// further operations, settling again fails with `SessionClosed`.
pub proof fn lemma_no_double_settlement(
    s: UsageSession,
    caller: Identity,
    merchant: Identity,
    now: i64,
    ops: Seq<Operation>,
    caller2: Identity,
    merchant2: Identity,
    now2: i64,
)
    requires
        s.wf(),
        settle_outcome(s, caller@, merchant@, now) is Ok,
    ensures
        settle_outcome(run(settle_outcome(s, caller@, merchant@, now)->Ok_0, ops), caller2@, merchant2@, now2)
            == Err::<UsageSession, FlowstreamError>(FlowstreamError::SessionClosed),
{
    let t = settle_outcome(s, caller@, merchant@, now)->Ok_0;
    lemma_run_invariant(t, ops);
}

} // verus!
