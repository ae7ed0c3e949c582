use anchor_lang::prelude::Pubkey;
use flowstream::{
    close_session, commit, commit_and_undelegate, compute_settlement, delegate, escrow_address,
    initialize_session, reconcile, record_usage, session_address, settle_session, CloseSession,
    CommitSession, DelegateSession, DelegationState, EscrowHolder, FlowstreamError, Identity,
    InitializeSession, RecordUsage, SessionStatus, SettleSession, Transfer, UsageSession,
};

fn id(b: u8) -> Identity {
    Identity::new([b; 32])
}

fn owner() -> Identity {
    id(1)
}

fn merchant() -> Identity {
    id(2)
}

fn service() -> Identity {
    id(3)
}

fn escrow() -> Identity {
    id(4)
}

fn create(deposit: u64, rate: u64) -> UsageSession {
    let mut ctx = InitializeSession {
        session: None,
        escrow: escrow(),
        owner: owner(),
        session_bump: 254,
        escrow_bump: 253,
    };
    let t = initialize_session(&mut ctx, service(), 0, 6, deposit, rate, merchant(), 100).unwrap();
    assert_eq!(t, Transfer { from: owner(), to: escrow(), amount: deposit });
    ctx.session.unwrap()
}

fn use_units(s: UsageSession, caller: Identity, amount: u64) -> (UsageSession, Result<(), FlowstreamError>) {
    let mut ctx = RecordUsage { session: s, owner: caller };
    let r = record_usage(&mut ctx, amount, 200);
    (ctx.session, r)
}

fn settle(s: UsageSession, caller: Identity, to: Identity) -> (SettleSession, Result<flowstream::SettlementTransfers, FlowstreamError>) {
    let mut ctx = SettleSession {
        session: s,
        escrow: EscrowHolder { address: escrow(), lamports: s.deposit_lamports },
        owner: caller,
        merchant: to,
    };
    let r = settle_session(&mut ctx, 300);
    (ctx, r)
}

#[test]
fn creation_sets_terms_and_zeroes_accumulators() {
    let s = create(1000, 10);
    assert_eq!(s.owner, owner());
    assert_eq!(s.merchant, merchant());
    assert_eq!(s.service_id, service());
    assert_eq!(s.deposit_lamports, 1000);
    assert_eq!(s.rate_lamports_per_unit, 10);
    assert_eq!(s.total_usage, 0);
    assert_eq!(s.settled_cost_lamports, 0);
    assert_eq!(s.refunded_lamports, 0);
    assert_eq!(s.status, SessionStatus::Active);
    assert_eq!(s.delegation, DelegationState::NotDelegated);
    assert_eq!(s.bump, 254);
    assert_eq!(s.escrow_bump, 253);
    assert_eq!(s.last_event_ts, 100);
}

#[test]
fn creation_with_zero_deposit_or_rate_fails_without_trace() {
    let mut ctx = InitializeSession { session: None, escrow: escrow(), owner: owner(), session_bump: 1, escrow_bump: 2 };
    assert_eq!(initialize_session(&mut ctx, service(), 0, 0, 0, 10, merchant(), 1), Err(FlowstreamError::InvalidDeposit));
    assert!(ctx.session.is_none());
    assert_eq!(initialize_session(&mut ctx, service(), 0, 0, 1000, 0, merchant(), 1), Err(FlowstreamError::InvalidRate));
    assert!(ctx.session.is_none());
    assert_eq!(initialize_session(&mut ctx, service(), 0, 0, 0, 0, merchant(), 1), Err(FlowstreamError::InvalidDeposit));
    assert!(ctx.session.is_none());
}

#[test]
fn scenario_a_settle_under_deposit() {
    let s = create(1000, 10);
    let (s, r) = use_units(s, owner(), 50);
    assert_eq!(r, Ok(()));
    let (ctx, r) = settle(s, owner(), merchant());
    let t = r.unwrap();
    assert_eq!(ctx.session.settled_cost_lamports, 500);
    assert_eq!(ctx.session.refunded_lamports, 500);
    assert_eq!(ctx.session.status, SessionStatus::Closed);
    assert_eq!(ctx.escrow.lamports, 0);
    assert_eq!(t.to_merchant, Some(Transfer { from: escrow(), to: merchant(), amount: 500 }));
    assert_eq!(t.to_owner, Some(Transfer { from: escrow(), to: owner(), amount: 500 }));
}

#[test]
fn scenario_b_cost_capped_at_deposit() {
    let s = create(1000, 10);
    let (s, r) = use_units(s, owner(), 200);
    assert_eq!(r, Ok(()));
    let (ctx, r) = settle(s, owner(), merchant());
    let t = r.unwrap();
    assert_eq!(ctx.session.settled_cost_lamports, 1000);
    assert_eq!(ctx.session.refunded_lamports, 0);
    assert_eq!(ctx.escrow.lamports, 0);
    assert_eq!(t.to_merchant, Some(Transfer { from: escrow(), to: merchant(), amount: 1000 }));
    assert_eq!(t.to_owner, None);
}

#[test]
fn settle_with_no_usage_refunds_everything() {
    let s = create(1000, 10);
    let (ctx, r) = settle(s, owner(), merchant());
    let t = r.unwrap();
    assert_eq!(ctx.session.settled_cost_lamports, 0);
    assert_eq!(ctx.session.refunded_lamports, 1000);
    assert_eq!(t.to_merchant, None);
    assert_eq!(t.to_owner, Some(Transfer { from: escrow(), to: owner(), amount: 1000 }));
}

#[test]
fn scenario_c_usage_overflow_leaves_total() {
    let s = create(1000, 10);
    let (s, r) = use_units(s, owner(), u64::MAX - 5);
    assert_eq!(r, Ok(()));
    let (s2, r) = use_units(s, owner(), 6);
    assert_eq!(r, Err(FlowstreamError::UsageOverflow));
    assert_eq!(s2, s);
    assert_eq!(s2.total_usage, u64::MAX - 5);
    let (s3, r) = use_units(s2, owner(), 5);
    assert_eq!(r, Ok(()));
    assert_eq!(s3.total_usage, u64::MAX);
}

#[test]
fn settle_cost_overflow_is_usage_overflow() {
    let s = create(1000, 10);
    let (s, _) = use_units(s, owner(), u64::MAX / 10 + 1);
    let (ctx, r) = settle(s, owner(), merchant());
    assert_eq!(r, Err(FlowstreamError::UsageOverflow));
    assert_eq!(ctx.session, s);
    assert_eq!(ctx.escrow.lamports, 1000);
}

#[test]
fn scenario_d_delegated_usage_reaches_settlement() {
    let s = create(1000, 1);
    let (s, _) = use_units(s, owner(), 7);
    let (pda, _) = session_address(&owner(), &service()).unwrap();
    let mut dctx = DelegateSession { payer: owner(), pda, session: s };
    assert_eq!(delegate(&mut dctx, owner(), service()), Ok(()));
    assert_eq!(dctx.session.delegation, DelegationState::Delegated);
    // the fast context records on its copy
    let mut fast = dctx.session;
    for amount in [10u64, 20, 30] {
        let (next, r) = use_units(fast, owner(), amount);
        assert_eq!(r, Ok(()));
        fast = next;
    }
    let mut cctx = CommitSession { payer: owner(), session: fast };
    assert_eq!(commit(&mut cctx), Ok(()));
    assert_eq!(commit_and_undelegate(&mut cctx), Ok(()));
    assert_eq!(cctx.session.delegation, DelegationState::PendingReconciliation);
    let mut primary = cctx.session;
    assert_eq!(reconcile(&mut primary), Ok(()));
    assert_eq!(primary.delegation, DelegationState::NotDelegated);
    assert_eq!(primary.total_usage, 67);
    let (ctx, r) = settle(primary, owner(), merchant());
    assert!(r.is_ok());
    assert_eq!(ctx.session.total_usage, 67);
    assert_eq!(ctx.session.settled_cost_lamports, 67);
    assert_eq!(ctx.session.refunded_lamports, 933);
}

#[test]
fn settle_while_delegated_is_refused() {
    let s = create(1000, 1);
    let (pda, _) = session_address(&owner(), &service()).unwrap();
    let mut dctx = DelegateSession { payer: owner(), pda, session: s };
    assert_eq!(delegate(&mut dctx, owner(), service()), Ok(()));
    let (ctx, r) = settle(dctx.session, owner(), merchant());
    assert_eq!(r, Err(FlowstreamError::InvalidDelegationState));
    assert_eq!(ctx.session, dctx.session);
    let mut cctx = CommitSession { payer: owner(), session: dctx.session };
    assert_eq!(commit_and_undelegate(&mut cctx), Ok(()));
    let (_, r) = settle(cctx.session, owner(), merchant());
    assert_eq!(r, Err(FlowstreamError::InvalidDelegationState));
    let (_, r) = use_units(cctx.session, owner(), 1);
    assert_eq!(r, Err(FlowstreamError::InvalidDelegationState));
}

#[test]
fn delegation_errors() {
    let s = create(1000, 1);
    let (pda, _) = session_address(&owner(), &service()).unwrap();
    let mut dctx = DelegateSession { payer: merchant(), pda, session: s };
    assert_eq!(delegate(&mut dctx, owner(), service()), Err(FlowstreamError::Unauthorized));
    let mut dctx = DelegateSession { payer: owner(), pda: id(9), session: s };
    assert_eq!(delegate(&mut dctx, owner(), service()), Err(FlowstreamError::InvalidSession));
    assert_eq!(dctx.session, s);
    let mut dctx = DelegateSession { payer: owner(), pda, session: s };
    assert_eq!(delegate(&mut dctx, owner(), service()), Ok(()));
    assert_eq!(delegate(&mut dctx, owner(), service()), Err(FlowstreamError::InvalidDelegationState));
    let mut cctx = CommitSession { payer: merchant(), session: dctx.session };
    assert_eq!(commit(&mut cctx), Err(FlowstreamError::Unauthorized));
    assert_eq!(commit_and_undelegate(&mut cctx), Err(FlowstreamError::Unauthorized));
    let mut cctx = CommitSession { payer: owner(), session: s };
    assert_eq!(commit(&mut cctx), Err(FlowstreamError::InvalidDelegationState));
    let mut primary = s;
    assert_eq!(reconcile(&mut primary), Err(FlowstreamError::InvalidDelegationState));
}

#[test]
fn scenario_e_foreign_caller_is_unauthorized() {
    let s = create(1000, 10);
    let (s2, r) = use_units(s, merchant(), 5);
    assert_eq!(r, Err(FlowstreamError::Unauthorized));
    assert_eq!(s2, s);
    let (ctx, r) = settle(s, merchant(), merchant());
    assert_eq!(r, Err(FlowstreamError::Unauthorized));
    assert_eq!(ctx.session, s);
    assert_eq!(ctx.escrow.lamports, 1000);
    let mut cl = CloseSession { session: s, owner: merchant() };
    assert_eq!(close_session(&mut cl, 5), Err(FlowstreamError::Unauthorized));
    assert_eq!(cl.session, s);
}

#[test]
fn settle_to_another_merchant_is_refused() {
    let s = create(1000, 10);
    let (ctx, r) = settle(s, owner(), id(8));
    assert_eq!(r, Err(FlowstreamError::InvalidMerchant));
    assert_eq!(ctx.session, s);
}

#[test]
fn double_settlement_fails_with_session_closed() {
    let s = create(1000, 10);
    let (ctx, r) = settle(s, owner(), merchant());
    assert!(r.is_ok());
    let settled = ctx.session;
    let (ctx2, r) = settle(settled, owner(), merchant());
    assert_eq!(r, Err(FlowstreamError::SessionClosed));
    assert_eq!(ctx2.session, settled);
}

#[test]
fn close_then_everything_is_refused() {
    let s = create(1000, 10);
    let mut cl = CloseSession { session: s, owner: owner() };
    assert_eq!(close_session(&mut cl, 9), Ok(()));
    assert_eq!(cl.session.status, SessionStatus::Closed);
    assert_eq!(cl.session.last_event_ts, 9);
    assert_eq!(cl.session.settled_cost_lamports, 0);
    assert_eq!(close_session(&mut cl, 10), Err(FlowstreamError::SessionClosed));
    let (_, r) = use_units(cl.session, owner(), 1);
    assert_eq!(r, Err(FlowstreamError::SessionClosed));
    let (_, r) = settle(cl.session, owner(), merchant());
    assert_eq!(r, Err(FlowstreamError::SessionClosed));
}

#[test]
fn usage_is_monotonic_and_summed() {
    let mut s = create(1000, 10);
    let mut last = 0u64;
    for amount in [0u64, 3, 0, 9, 1] {
        let (next, r) = use_units(s, owner(), amount);
        assert_eq!(r, Ok(()));
        assert!(next.total_usage >= last);
        last = next.total_usage;
        s = next;
    }
    assert_eq!(s.total_usage, 13);
    assert_eq!(s.last_event_ts, 200);
}

#[test]
fn conservation_over_many_splits() {
    for (usage, rate, deposit) in [(0u64, 1u64, 1u64), (3, 7, 20), (3, 7, 21), (3, 7, 22), (u64::MAX, 1, u64::MAX)] {
        let (cost, refund) = compute_settlement(usage, rate, deposit).unwrap();
        assert_eq!(cost + refund, deposit);
        assert_eq!(cost, (usage * rate).min(deposit));
    }
    assert_eq!(compute_settlement(u64::MAX, 2, 5), Err(FlowstreamError::UsageOverflow));
    assert_eq!(compute_settlement(3, 7, 20), Ok((20, 0)));
    assert_eq!(compute_settlement(3, 7, 22), Ok((21, 1)));
}

#[test]
fn derived_addresses_match_the_ledger_rule() {
    let program = Pubkey::new_from_array(flowstream::address::PROGRAM_ID);
    let o = owner();
    let sv = service();
    let (expected, bump) = Pubkey::find_program_address(&[b"session", o.bytes.as_ref(), sv.bytes.as_ref()], &program);
    let (k, b) = session_address(&o, &sv).unwrap();
    assert_eq!(k.to_bytes(), expected.to_bytes());
    assert_eq!(b, bump);
    assert_ne!(k, o);
    let (e, eb) = Pubkey::find_program_address(&[b"escrow", k.bytes.as_ref()], &program);
    let (ek, ebump) = escrow_address(&k).unwrap();
    assert_eq!(ek.to_bytes(), e.to_bytes());
    assert_eq!(ebump, eb);
    assert_ne!(ek, k);
    let (other, _) = session_address(&sv, &o).unwrap();
    assert_ne!(other, k);
}

#[test]
fn identity_comparison() {
    assert!(id(5).same_as(&id(5)));
    let mut b = [5u8; 32];
    b[31] = 6;
    assert!(!id(5).same_as(&Identity::new(b)));
    assert_eq!(id(5).to_vec(), vec![5u8; 32]);
}
