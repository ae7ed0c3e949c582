//! Handing write authority for a record to the fast execution context and back.
use vstd::prelude::*;

use crate::address::{address_view, program_address, session_address, session_seeds, PROGRAM_ID};
use crate::identity::Identity;
use crate::session::{after, outcome_result, DelegationState, FlowstreamError, UsageSession};

verus! {

/// The accounts seen by `delegate`: the signing payer, the account to delegate
/// and the record it holds.
pub struct DelegateSession {
    pub payer: Identity,
    pub pda: Identity,
    pub session: UsageSession,
}

/// The accounts seen by `commit` and `commit_and_undelegate`.
pub struct CommitSession {
    pub payer: Identity,
    pub session: UsageSession,
}

/// Delegation of the record at `pda` by `payer`, for `owner` and `service_id`,
/// where `expected` is the derived session address of that pair.
pub open spec fn delegate_outcome(
    s: UsageSession,
    payer: Seq<u8>,
    pda: Seq<u8>,
    owner: Seq<u8>,
    expected: Option<(Seq<u8>, u8)>,
) -> Result<UsageSession, FlowstreamError> {
    if payer != owner {
        Err(FlowstreamError::Unauthorized)
    } else if !(expected matches Some((k, _)) && k == pda) {
        Err(FlowstreamError::InvalidSession)
    } else if s.delegation != DelegationState::NotDelegated {
        Err(FlowstreamError::InvalidDelegationState)
    } else {
        Ok(UsageSession { delegation: DelegationState::Delegated, ..s })
    }
}

/// A checkpoint of the fast context's state by `caller`: the record is unchanged.
pub open spec fn commit_outcome(s: UsageSession, caller: Seq<u8>) -> Result<UsageSession, FlowstreamError> {
    if caller != s.owner@ {
        Err(FlowstreamError::Unauthorized)
    } else if s.delegation != DelegationState::Delegated {
        Err(FlowstreamError::InvalidDelegationState)
    } else {
        Ok(s)
    }
}

/// A final commit by `caller`: the fast context gives up write authority.
pub open spec fn commit_and_undelegate_outcome(s: UsageSession, caller: Seq<u8>) -> Result<UsageSession, FlowstreamError> {
    if caller != s.owner@ {
        Err(FlowstreamError::Unauthorized)
    } else if s.delegation != DelegationState::Delegated {
        Err(FlowstreamError::InvalidDelegationState)
    } else {
        Ok(UsageSession { delegation: DelegationState::PendingReconciliation, ..s })
    }
}

/// The primary store taking back a committed record.
pub open spec fn reconcile_outcome(s: UsageSession) -> Result<UsageSession, FlowstreamError> {
    if s.delegation != DelegationState::PendingReconciliation {
        Err(FlowstreamError::InvalidDelegationState)
    } else {
        Ok(UsageSession { delegation: DelegationState::NotDelegated, ..s })
    }
}

/// Decides a delegation once the derived address `expected` of `owner` and
/// `service_id` is known; on success the record is marked `Delegated`.
pub fn authorize_delegation(
    ctx: &mut DelegateSession,
    owner: &Identity,
    expected: Option<(Identity, u8)>,
) -> (r: Result<(), FlowstreamError>)
    ensures
        final(ctx).payer == old(ctx).payer,
        final(ctx).pda == old(ctx).pda,
        final(ctx).session == after(
            old(ctx).session,
            delegate_outcome(old(ctx).session, old(ctx).payer@, old(ctx).pda@, owner@, address_view(expected)),
        ),
        r == outcome_result(
            delegate_outcome(old(ctx).session, old(ctx).payer@, old(ctx).pda@, owner@, address_view(expected)),
        ),
{
    if !ctx.payer.same_as(owner) {
        return Err(FlowstreamError::Unauthorized);
    }
    let matches_pda = match &expected {
        Some((k, _)) => k.same_as(&ctx.pda),
        None => false,
    };
    if !matches_pda {
        return Err(FlowstreamError::InvalidSession);
    }
    if ctx.session.delegation != DelegationState::NotDelegated {
        return Err(FlowstreamError::InvalidDelegationState);
    }
    ctx.session.delegation = DelegationState::Delegated;
    Ok(())
}

/// Hands write authority for the record to the fast context. The payer must be
/// `owner` and the account must sit at the session address derived from
/// `owner` and `service_id`.
pub fn delegate(ctx: &mut DelegateSession, owner: Identity, service_id: Identity) -> (r: Result<(), FlowstreamError>)
    ensures
        final(ctx).payer == old(ctx).payer,
        final(ctx).pda == old(ctx).pda,
        ({
            let o = delegate_outcome(
                old(ctx).session,
                old(ctx).payer@,
                old(ctx).pda@,
                owner@,
                program_address(session_seeds(owner@, service_id@), PROGRAM_ID@),
            );
            &&& final(ctx).session == after(old(ctx).session, o)
            &&& r == outcome_result(o)
        }),
{
    // an unauthorized payer is refused before any address is derived
    if !ctx.payer.same_as(&owner) {
        return Err(FlowstreamError::Unauthorized);
    }
    let expected = session_address(&owner, &service_id);
    authorize_delegation(ctx, &owner, expected)
}

/// Checkpoints the fast context's record into the primary store; authority stays delegated.
pub fn commit(ctx: &mut CommitSession) -> (r: Result<(), FlowstreamError>)
    ensures
        final(ctx).payer == old(ctx).payer,
        final(ctx).session == after(old(ctx).session, commit_outcome(old(ctx).session, old(ctx).payer@)),
        r == outcome_result(commit_outcome(old(ctx).session, old(ctx).payer@)),
{
    if !ctx.session.owner.same_as(&ctx.payer) {
        return Err(FlowstreamError::Unauthorized);
    }
    if ctx.session.delegation != DelegationState::Delegated {
        return Err(FlowstreamError::InvalidDelegationState);
    }
    Ok(())
}

/// Commits the fast context's record and gives up its write authority; the
/// record waits for the primary store to take it back.
pub fn commit_and_undelegate(ctx: &mut CommitSession) -> (r: Result<(), FlowstreamError>)
    ensures
        final(ctx).payer == old(ctx).payer,
        final(ctx).session == after(old(ctx).session, commit_and_undelegate_outcome(old(ctx).session, old(ctx).payer@)),
        r == outcome_result(commit_and_undelegate_outcome(old(ctx).session, old(ctx).payer@)),
{
    if !ctx.session.owner.same_as(&ctx.payer) {
        return Err(FlowstreamError::Unauthorized);
    }
    if ctx.session.delegation != DelegationState::Delegated {
        return Err(FlowstreamError::InvalidDelegationState);
    }
    ctx.session.delegation = DelegationState::PendingReconciliation;
    Ok(())
}

/// The primary store takes back a record committed by `commit_and_undelegate`;
/// from then on it is the record's only writer.
pub fn reconcile(session: &mut UsageSession) -> (r: Result<(), FlowstreamError>)
    ensures
        *final(session) == after(*old(session), reconcile_outcome(*old(session))),
        r == outcome_result(reconcile_outcome(*old(session))),
{
    if session.delegation != DelegationState::PendingReconciliation {
        return Err(FlowstreamError::InvalidDelegationState);
    }
    session.delegation = DelegationState::NotDelegated;
    Ok(())
}

} // verus!
