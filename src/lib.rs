//! Metered usage sessions backed by an escrowed deposit: the session state
//! machine, its settlement arithmetic and the delegation/commit protocol that
//! hands usage recording to a fast execution context and back.

pub mod address;
pub mod delegation;
pub mod identity;
pub mod laws;
pub mod session;
pub mod settlement;

pub use address::{escrow_address, session_address};
pub use identity::Identity;
pub use delegation::{
    authorize_delegation, commit, commit_and_undelegate, delegate, reconcile, CommitSession,
    DelegateSession,
};
pub use session::{
    close_session, initialize_session, record_usage, settle_session, CloseSession, DelegationState,
    EscrowHolder, FlowstreamError, InitializeSession, RecordUsage, SessionStatus, SettleSession,
    SettlementTransfers, Transfer, UsageSession,
};
pub use settlement::compute_settlement;
