//! The session record and its lifecycle: create, record usage, close, settle.
use vstd::prelude::*;

use crate::identity::Identity;
use crate::settlement::{clamped_cost, compute_settlement, raw_cost};

verus! {

/// Lifecycle phase of a session. `Closed` is terminal.
#[derive(Clone, Copy, Debug, PartialEq, Eq, Structural)]
pub enum SessionStatus {
    Active,
    Closed,
}

/// Which execution context may write the record.
///
/// `Delegated`: the fast context holds write authority. `PendingReconciliation`:
/// the fast context has committed its state and given up authority, and the
/// primary store has not yet taken the record back.
#[derive(Clone, Copy, Debug, PartialEq, Eq, Structural)]
pub enum DelegationState {
    NotDelegated,
    Delegated,
    PendingReconciliation,
}

/// Why an operation was rejected. A rejected operation changes nothing.
#[derive(Clone, Copy, Debug, PartialEq, Eq, Structural)]
pub enum FlowstreamError {
    /// Mutation attempted on a session that is not active.
    SessionClosed,
    /// The caller is not the bound owner.
    Unauthorized,
    /// Usage accumulation or the cost multiplication would overflow.
    UsageOverflow,
    /// The delegation target is not the session's derived address.
    InvalidSession,
    /// The deposit given at creation is zero.
    InvalidDeposit,
    /// The rate given at creation is zero.
    InvalidRate,
    /// The refund subtraction underflowed (never returned: the payment never exceeds the deposit).
    RefundOverflow,
    /// The merchant given at settlement is not the bound merchant.
    InvalidMerchant,
    /// The operation is not allowed in the record's current delegation state.
    InvalidDelegationState,
}

/// The durable record of one owner/service pairing.
#[derive(Clone, Copy, Debug, PartialEq, Eq)]
pub struct UsageSession {
    pub owner: Identity,
    pub service_id: Identity,
    pub unit: u8,
    pub decimals: u8,
    pub status: SessionStatus,
    pub bump: u8,
    pub escrow_bump: u8,
    pub deposit_lamports: u64,
    pub rate_lamports_per_unit: u64,
    pub merchant: Identity,
    pub total_usage: u64,
    pub settled_cost_lamports: u64,
    pub refunded_lamports: u64,
    pub last_event_ts: i64,
    pub delegation: DelegationState,
}

impl UsageSession {
    /// Settlement has happened: the deposit is split between merchant and owner.
    pub open spec fn is_settled(self) -> bool {
        self.settled_cost_lamports + self.refunded_lamports == self.deposit_lamports
    }

    /// The record's invariant: positive terms, both fund fields zero until
    /// settlement and summing to the deposit after it, and a settled record closed.
    pub open spec fn wf(self) -> bool {
        &&& self.deposit_lamports > 0
        &&& self.rate_lamports_per_unit > 0
        &&& self.is_settled() || (self.settled_cost_lamports == 0 && self.refunded_lamports == 0)
        &&& self.is_settled() ==> self.status == SessionStatus::Closed
    }
}

/// A funds-only account bound to one session.
#[derive(Clone, Copy, Debug, PartialEq, Eq)]
pub struct EscrowHolder {
    pub address: Identity,
    pub lamports: u64,
}

/// A movement of funds for the ledger to perform.
#[derive(Clone, Copy, Debug, PartialEq, Eq)]
pub struct Transfer {
    pub from: Identity,
    pub to: Identity,
    pub amount: u64,
}

/// The outgoing transfers of one settlement; a zero amount is not transferred.
#[derive(Clone, Copy, Debug, PartialEq, Eq)]
pub struct SettlementTransfers {
    pub to_merchant: Option<Transfer>,
    pub to_owner: Option<Transfer>,
}

/// The accounts seen by `initialize_session`. `session` is `None` for an account
/// that holds no record yet; an earlier record there is replaced.
pub struct InitializeSession {
    pub session: Option<UsageSession>,
    pub escrow: Identity,
    pub owner: Identity,
    pub session_bump: u8,
    pub escrow_bump: u8,
}

/// The accounts seen by `record_usage`: the record and the signing caller.
pub struct RecordUsage {
    pub session: UsageSession,
    pub owner: Identity,
}

/// The accounts seen by `close_session`: the record and the signing caller.
pub struct CloseSession {
    pub session: UsageSession,
    pub owner: Identity,
}

/// The accounts seen by `settle_session`.
pub struct SettleSession {
    pub session: UsageSession,
    pub escrow: EscrowHolder,
    pub owner: Identity,
    pub merchant: Identity,
}

/// The state after an operation: the new record on success, the old one on failure.
pub open spec fn after(s: UsageSession, o: Result<UsageSession, FlowstreamError>) -> UsageSession {
    match o {
        Ok(t) => t,
        Err(_) => s,
    }
}

/// What an operation returns, without the new record.
pub open spec fn outcome_result(o: Result<UsageSession, FlowstreamError>) -> Result<(), FlowstreamError> {
    match o {
        Ok(_) => Ok(()),
        Err(e) => Err(e),
    }
}

/// Creation of a record: positive deposit and rate, everything else zeroed.
pub open spec fn initialize_outcome(
    owner: Identity,
    service_id: Identity,
    unit: u8,
    decimals: u8,
    deposit: u64,
    rate: u64,
    merchant: Identity,
    bump: u8,
    escrow_bump: u8,
    now: i64,
) -> Result<UsageSession, FlowstreamError> {
    if deposit == 0 {
        Err(FlowstreamError::InvalidDeposit)
    } else if rate == 0 {
        Err(FlowstreamError::InvalidRate)
    } else {
        Ok(
            UsageSession {
                owner,
                service_id,
                unit,
                decimals,
                status: SessionStatus::Active,
                bump,
                escrow_bump,
                deposit_lamports: deposit,
                rate_lamports_per_unit: rate,
                merchant,
                total_usage: 0,
                settled_cost_lamports: 0,
                refunded_lamports: 0,
                last_event_ts: now,
                delegation: DelegationState::NotDelegated,
            },
        )
    }
}

/// Recording `amount` units by `caller` at time `now`.
pub open spec fn record_usage_outcome(s: UsageSession, caller: Seq<u8>, amount: u64, now: i64) -> Result<UsageSession, FlowstreamError> {
    if caller != s.owner@ {
        Err(FlowstreamError::Unauthorized)
    } else if s.status != SessionStatus::Active {
        Err(FlowstreamError::SessionClosed)
    } else if s.delegation == DelegationState::PendingReconciliation {
        Err(FlowstreamError::InvalidDelegationState)
    } else if s.total_usage + amount > u64::MAX {
        Err(FlowstreamError::UsageOverflow)
    } else {
        Ok(UsageSession { total_usage: (s.total_usage + amount) as u64, last_event_ts: now, ..s })
    }
}

/// Closing the session by `caller` at time `now`, without settlement.
pub open spec fn close_outcome(s: UsageSession, caller: Seq<u8>, now: i64) -> Result<UsageSession, FlowstreamError> {
    if caller != s.owner@ {
        Err(FlowstreamError::Unauthorized)
    } else if s.status != SessionStatus::Active {
        Err(FlowstreamError::SessionClosed)
    } else if s.delegation == DelegationState::PendingReconciliation {
        Err(FlowstreamError::InvalidDelegationState)
    } else {
        Ok(UsageSession { status: SessionStatus::Closed, last_event_ts: now, ..s })
    }
}

/// Settlement by `caller`, paying `merchant`, at time `now`.
pub open spec fn settle_outcome(s: UsageSession, caller: Seq<u8>, merchant: Seq<u8>, now: i64) -> Result<UsageSession, FlowstreamError> {
    if s.status != SessionStatus::Active {
        Err(FlowstreamError::SessionClosed)
    } else if caller != s.owner@ {
        Err(FlowstreamError::Unauthorized)
    } else if merchant != s.merchant@ {
        Err(FlowstreamError::InvalidMerchant)
    } else if s.delegation != DelegationState::NotDelegated {
        Err(FlowstreamError::InvalidDelegationState)
    } else if raw_cost(s.total_usage, s.rate_lamports_per_unit) > u64::MAX {
        Err(FlowstreamError::UsageOverflow)
    } else {
        let cost = clamped_cost(s.total_usage, s.rate_lamports_per_unit, s.deposit_lamports);
        Ok(
            UsageSession {
                settled_cost_lamports: cost as u64,
                refunded_lamports: (s.deposit_lamports - cost) as u64,
                status: SessionStatus::Closed,
                last_event_ts: now,
                ..s
            },
        )
    }
}

/// The transfer of `amount` from `from` to `to`, or none for a zero amount.
pub open spec fn payout(from: Identity, to: Identity, amount: u64) -> Option<Transfer> {
    if amount > 0 {
        Some(Transfer { from, to, amount })
    } else {
        None
    }
}

fn make_payout(from: Identity, to: Identity, amount: u64) -> (r: Option<Transfer>)
    ensures
        r == payout(from, to, amount),
{
    if amount > 0 {
        Some(Transfer { from, to, amount })
    } else {
        None
    }
}

/// Creates the session record and returns the transfer that funds its escrow
/// with the deposit, from the owner.
///
/// Fails with `InvalidDeposit` for a zero deposit, else with `InvalidRate` for a
/// zero rate, and then leaves the accounts as they were.
pub fn initialize_session(
    ctx: &mut InitializeSession,
    service_id: Identity,
    unit: u8,
    decimals: u8,
    deposit_lamports: u64,
    rate_lamports_per_unit: u64,
    merchant: Identity,
    now: i64,
) -> (r: Result<Transfer, FlowstreamError>)
    ensures
        final(ctx).owner == old(ctx).owner,
        final(ctx).escrow == old(ctx).escrow,
        final(ctx).session_bump == old(ctx).session_bump,
        final(ctx).escrow_bump == old(ctx).escrow_bump,
        ({
            let o = initialize_outcome(
                old(ctx).owner,
                service_id,
                unit,
                decimals,
                deposit_lamports,
                rate_lamports_per_unit,
                merchant,
                old(ctx).session_bump,
                old(ctx).escrow_bump,
                now,
            );
            match o {
                Ok(s) => {
                    &&& final(ctx).session == Some(s)
                    &&& r == Ok::<Transfer, FlowstreamError>(
                        Transfer { from: old(ctx).owner, to: old(ctx).escrow, amount: deposit_lamports },
                    )
                },
                Err(e) => {
                    &&& final(ctx).session == old(ctx).session
                    &&& r == Err::<Transfer, FlowstreamError>(e)
                },
            }
        }),
{
    if deposit_lamports == 0 {
        return Err(FlowstreamError::InvalidDeposit);
    }
    if rate_lamports_per_unit == 0 {
        return Err(FlowstreamError::InvalidRate);
    }
    ctx.session = Some(
        UsageSession {
            owner: ctx.owner,
            service_id,
            unit,
            decimals,
            status: SessionStatus::Active,
            bump: ctx.session_bump,
            escrow_bump: ctx.escrow_bump,
            deposit_lamports,
            rate_lamports_per_unit,
            merchant,
            total_usage: 0,
            settled_cost_lamports: 0,
            refunded_lamports: 0,
            last_event_ts: now,
            delegation: DelegationState::NotDelegated,
        },
    );
    Ok(Transfer { from: ctx.owner, to: ctx.escrow, amount: deposit_lamports })
}

/// Adds `amount` to the session's usage counter.
pub fn record_usage(ctx: &mut RecordUsage, amount: u64, now: i64) -> (r: Result<(), FlowstreamError>)
    ensures
        final(ctx).owner == old(ctx).owner,
        final(ctx).session == after(old(ctx).session, record_usage_outcome(old(ctx).session, old(ctx).owner@, amount, now)),
        r == outcome_result(record_usage_outcome(old(ctx).session, old(ctx).owner@, amount, now)),
{
    if !ctx.session.owner.same_as(&ctx.owner) {
        return Err(FlowstreamError::Unauthorized);
    }
    if ctx.session.status != SessionStatus::Active {
        return Err(FlowstreamError::SessionClosed);
    }
    if ctx.session.delegation == DelegationState::PendingReconciliation {
        return Err(FlowstreamError::InvalidDelegationState);
    }
    let total = match ctx.session.total_usage.checked_add(amount) {
        Some(t) => t,
        None => {
            return Err(FlowstreamError::UsageOverflow);
        },
    };
    ctx.session.total_usage = total;
    ctx.session.last_event_ts = now;
    Ok(())
}

/// Closes the session without settling it: the escrow stays funded.
pub fn close_session(ctx: &mut CloseSession, now: i64) -> (r: Result<(), FlowstreamError>)
    ensures
        final(ctx).owner == old(ctx).owner,
        final(ctx).session == after(old(ctx).session, close_outcome(old(ctx).session, old(ctx).owner@, now)),
        r == outcome_result(close_outcome(old(ctx).session, old(ctx).owner@, now)),
{
    if !ctx.session.owner.same_as(&ctx.owner) {
        return Err(FlowstreamError::Unauthorized);
    }
    if ctx.session.status != SessionStatus::Active {
        return Err(FlowstreamError::SessionClosed);
    }
    if ctx.session.delegation == DelegationState::PendingReconciliation {
        return Err(FlowstreamError::InvalidDelegationState);
    }
    ctx.session.status = SessionStatus::Closed;
    ctx.session.last_event_ts = now;
    Ok(())
}

/// Settles the session: pays the merchant the usage cost capped at the deposit,
/// refunds the rest to the owner, records both amounts and closes the session.
/// Returns the transfers out of the escrow, which the ledger performs as one unit.
pub fn settle_session(ctx: &mut SettleSession, now: i64) -> (r: Result<SettlementTransfers, FlowstreamError>)
    requires
        old(ctx).session.status == SessionStatus::Active ==> old(ctx).escrow.lamports >= old(ctx).session.deposit_lamports,
    ensures
        final(ctx).owner == old(ctx).owner,
        final(ctx).merchant == old(ctx).merchant,
        final(ctx).escrow.address == old(ctx).escrow.address,
        ({
            let o = settle_outcome(old(ctx).session, old(ctx).owner@, old(ctx).merchant@, now);
            match o {
                Ok(s) => {
                    &&& final(ctx).session == s
                    &&& final(ctx).escrow.lamports == old(ctx).escrow.lamports - s.deposit_lamports
                    &&& r == Ok::<SettlementTransfers, FlowstreamError>(
                        SettlementTransfers {
                            to_merchant: payout(old(ctx).escrow.address, old(ctx).merchant, s.settled_cost_lamports),
                            to_owner: payout(old(ctx).escrow.address, old(ctx).owner, s.refunded_lamports),
                        },
                    )
                },
                Err(e) => {
                    &&& final(ctx).session == old(ctx).session
                    &&& final(ctx).escrow == old(ctx).escrow
                    &&& r == Err::<SettlementTransfers, FlowstreamError>(e)
                },
            }
        }),
{
    if ctx.session.status != SessionStatus::Active {
        return Err(FlowstreamError::SessionClosed);
    }
    if !ctx.session.owner.same_as(&ctx.owner) {
        return Err(FlowstreamError::Unauthorized);
    }
    if !ctx.session.merchant.same_as(&ctx.merchant) {
        return Err(FlowstreamError::InvalidMerchant);
    }
    if ctx.session.delegation != DelegationState::NotDelegated {
        return Err(FlowstreamError::InvalidDelegationState);
    }
    let (settled_cost, refund) = match compute_settlement(
        ctx.session.total_usage,
        ctx.session.rate_lamports_per_unit,
        ctx.session.deposit_lamports,
    ) {
        Ok(split) => split,
        Err(e) => {
            return Err(e);
        },
    };
    let transfers = SettlementTransfers {
        to_merchant: make_payout(ctx.escrow.address, ctx.merchant, settled_cost),
        to_owner: make_payout(ctx.escrow.address, ctx.owner, refund),
    };
    ctx.escrow.lamports = ctx.escrow.lamports - ctx.session.deposit_lamports;
    ctx.session.settled_cost_lamports = settled_cost;
    ctx.session.refunded_lamports = refund;
    ctx.session.status = SessionStatus::Closed;
    ctx.session.last_event_ts = now;
    Ok(transfers)
}

} // verus!
