//! The time-based accrual calculation: how much reward has become due
//! between the last distribution and now.

use vstd::prelude::*;

use crate::error::ContractError;

verus! {

/// The effective elapsed time: seconds from the later of the last
/// distribution and the start of rewards up to `now`, saturating at zero.
pub open spec fn spec_effective_elapsed(last: u64, start: u64, now: u64) -> u64 {
    let from = if last >= start {
        last
    } else {
        start
    };
    if now >= from {
        (now - from) as u64
    } else {
        0
    }
}

/// The accrual outcome for a distribution attempted at `now`, given the
/// stored clock `last`, the configured start time `start` and the emission
/// rate `rate`:
/// - before `start`, rewards have not started;
/// - at the exact instant of the previous distribution, nothing further is
///   due;
/// - a product that does not fit in 128 bits is a hard overflow failure;
/// - a zero amount is reported as nothing to distribute;
/// - otherwise the amount due is `rate * elapsed`.
pub open spec fn spec_accrued(rate: u128, last: u64, start: u64, now: u64) -> Result<
    u128,
    ContractError,
> {
    if now < start {
        Err(ContractError::RewardsNotStarted {})
    } else if now == last {
        Err(ContractError::AlreadyDistributedThisInstant {})
    } else {
        let amount = rate * spec_effective_elapsed(last, start, now);
        if amount > u128::MAX {
            Err(ContractError::ArithmeticOverflow {})
        } else if amount == 0 {
            Err(ContractError::NoRewardsToDistribute {})
        } else {
            Ok(amount as u128)
        }
    }
}

/// Computes the reward amount due at `now`, exactly as [`spec_accrued`]
/// states it.
pub fn accrued_amount(rate: u128, last: u64, start: u64, now: u64) -> (r: Result<
    u128,
    ContractError,
>)
    ensures
        r == spec_accrued(rate, last, start, now),
{
    if now < start {
        return Err(ContractError::RewardsNotStarted {});
    }
    if now == last {
        return Err(ContractError::AlreadyDistributedThisInstant {});
    }
    let from = if last >= start {
        last
    } else {
        start
    };
    let elapsed: u64 = if now >= from {
        now - from
    } else {
        0
    };
    match rate.checked_mul(elapsed as u128) {
        None => Err(ContractError::ArithmeticOverflow {}),
        Some(amount) => {
            if amount == 0 {
                Err(ContractError::NoRewardsToDistribute {})
            } else {
                Ok(amount)
            }
        },
    }
}

} // verus!
