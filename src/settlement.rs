//! The settlement calculator: what the merchant is paid and what the owner gets back.
use vstd::prelude::*;

use crate::session::FlowstreamError;

verus! {

/// The cost of `total_usage` units at `rate` per unit, as an unbounded integer.
pub open spec fn raw_cost(total_usage: u64, rate: u64) -> int {
    total_usage * rate
}

/// The amount paid to the merchant: the cost, capped at the deposit.
pub open spec fn clamped_cost(total_usage: u64, rate: u64, deposit: u64) -> int {
    if raw_cost(total_usage, rate) < deposit {
        raw_cost(total_usage, rate)
    } else {
        deposit as int
    }
}

/// Splits `deposit` into the merchant's payment and the owner's refund.
///
/// Fails with `UsageOverflow` exactly when `total_usage * rate` does not fit in
/// 64 bits; otherwise the payment is the cost capped at the deposit and the
/// refund is the rest of the deposit.
pub fn compute_settlement(total_usage: u64, rate: u64, deposit: u64) -> (r: Result<(u64, u64), FlowstreamError>)
    ensures
        raw_cost(total_usage, rate) > u64::MAX ==> r == Err::<(u64, u64), FlowstreamError>(FlowstreamError::UsageOverflow),
        raw_cost(total_usage, rate) <= u64::MAX ==> r == Ok::<(u64, u64), FlowstreamError>((
            clamped_cost(total_usage, rate, deposit) as u64,
            (deposit - clamped_cost(total_usage, rate, deposit)) as u64,
        )),
{
    let cost = match total_usage.checked_mul(rate) {
        Some(c) => c,
        None => {
            return Err(FlowstreamError::UsageOverflow);
        },
    };
    let settled_cost = if cost < deposit {
        cost
    } else {
        deposit
    };
    match deposit.checked_sub(settled_cost) {
        Some(refund) => Ok((settled_cost, refund)),
        None => Err(FlowstreamError::RefundOverflow),
    }
}

} // verus!
