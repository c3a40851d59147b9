//! The arithmetic of a capped token supply: what may be minted, how the
//! counters grow, and how the cap may move.

use vstd::prelude::*;
use crate::error::ErrorCode;

verus! {

/// Whether `total_mined` respects the cap, where there is one.
pub open spec fn within_cap(total_mined: u64, max_supply: Option<u64>) -> bool {
    max_supply matches Some(cap) ==> total_mined <= cap
}

/// Why minting `amount` on top of `total_mined` is refused under `max_supply`,
/// if it is: under a cap the new total must fit in a `u64` and stay within the
/// cap. Without a cap nothing is refused here.
pub open spec fn mint_refusal(total_mined: u64, max_supply: Option<u64>, amount: u64) -> Option<
    ErrorCode,
> {
    match max_supply {
        Some(cap) => if total_mined + amount > u64::MAX {
            Some(ErrorCode::ArithmeticOverflow)
        } else if total_mined + amount > cap {
            Some(ErrorCode::MaxSupplyExceeded)
        } else {
            None
        },
        None => None,
    }
}

/// A counter after `amount` was added to it, or the overflow.
pub open spec fn credited(total: u64, amount: u64) -> Result<u64, ErrorCode> {
    if total + amount > u64::MAX {
        Err(ErrorCode::ArithmeticOverflow)
    } else {
        Ok((total + amount) as u64)
    }
}

/// Why the cap may not move from `current` to `proposed`, if it may not: a cap
/// in force is never lowered; it may be raised or lifted, and any cap may be set
/// where there was none.
pub open spec fn cap_refusal(current: Option<u64>, proposed: Option<u64>) -> Option<ErrorCode> {
    match (current, proposed) {
        (Some(cap), Some(new_cap)) => if new_cap < cap {
            Some(ErrorCode::CannotDecreaseMaxSupply)
        } else {
            None
        },
        _ => None,
    }
}

/// The tokens in circulation: what was minted less what was burned. There is
/// none to state where more was burned than minted.
pub open spec fn net(total_mined: u64, total_burned: u64) -> Option<u64> {
    if total_burned <= total_mined {
        Some((total_mined - total_burned) as u64)
    } else {
        None
    }
}

/// What was minted in all once a mint of `amount` was asked for and, where it
/// was not refused, applied.
pub open spec fn minted(total_mined: u64, max_supply: Option<u64>, amount: u64) -> u64 {
    if mint_refusal(total_mined, max_supply, amount).is_some() {
        total_mined
    } else {
        match credited(total_mined, amount) {
            Ok(total) => total,
            Err(_) => total_mined,
        }
    }
}

/// What was minted in all after the mints of `amounts`, one after the other.
pub open spec fn minted_all(total_mined: u64, max_supply: Option<u64>, amounts: Seq<u64>) -> u64
    decreases amounts.len(),
{
    if amounts.len() == 0 {
        total_mined
    } else {
        minted(minted_all(total_mined, max_supply, amounts.drop_last()), max_supply, amounts.last())
    }
}

/// A mint never carries the total over the cap, and a mint that would is
/// refused as one that exceeds the supply and mints nothing.
pub proof fn lemma_mint_within_cap(total_mined: u64, cap: u64, amount: u64)
    requires
        total_mined <= cap,
    ensures
        minted(total_mined, Some(cap), amount) <= cap,
        total_mined + amount > cap && total_mined + amount <= u64::MAX ==> mint_refusal(
            total_mined,
            Some(cap),
            amount,
        ) == Some(ErrorCode::MaxSupplyExceeded) && minted(total_mined, Some(cap), amount)
            == total_mined,
{
}

/// No sequence of mints carries a total that is within the cap over it.
pub proof fn lemma_mints_within_cap(total_mined: u64, cap: u64, amounts: Seq<u64>)
    requires
        total_mined <= cap,
    ensures
        minted_all(total_mined, Some(cap), amounts) <= cap,
    decreases amounts.len(),
{
    if amounts.len() > 0 {
        lemma_mints_within_cap(total_mined, cap, amounts.drop_last());
        lemma_mint_within_cap(
            minted_all(total_mined, Some(cap), amounts.drop_last()),
            cap,
            amounts.last(),
        );
    }
}

/// A cap in force is never lowered, and lifting the cap is always accepted.
pub proof fn lemma_cap_never_lowered(current: Option<u64>, proposed: Option<u64>)
    ensures
        cap_refusal(current, None).is_none(),
        cap_refusal(current, proposed) == Some(ErrorCode::CannotDecreaseMaxSupply) <==> (
        current matches Some(cap) && proposed matches Some(new_cap) && new_cap < cap),
        cap_refusal(current, proposed).is_none() || cap_refusal(current, proposed) == Some(
            ErrorCode::CannotDecreaseMaxSupply,
        ),
{
}

/// A move of the cap that is not refused keeps the total within the cap
/// exactly where the cap is lifted or the new cap is at least the total; a
/// total that was within a cap in force stays within the cap that replaces it.
pub proof fn lemma_cap_move_within_cap(
    total_mined: u64,
    current: Option<u64>,
    proposed: Option<u64>,
)
    requires
        cap_refusal(current, proposed).is_none(),
    ensures
        within_cap(total_mined, proposed) <==> (proposed matches Some(new_cap) ==> total_mined
            <= new_cap),
        current.is_some() && within_cap(total_mined, current) ==> within_cap(total_mined, proposed),
{
}

/// Checks a mint of `amount` against the cap.
pub fn check_mint(total_mined: u64, max_supply: Option<u64>, amount: u64) -> (checked: Result<
    (),
    ErrorCode,
>)
    ensures
        checked == match mint_refusal(total_mined, max_supply, amount) {
            Some(refusal) => Err::<(), ErrorCode>(refusal),
            None => Ok(()),
        },
{
    match max_supply {
        Some(cap) => match total_mined.checked_add(amount) {
            Some(new_total) => if new_total <= cap {
                Ok(())
            } else {
                Err(ErrorCode::MaxSupplyExceeded)
            },
            None => Err(ErrorCode::ArithmeticOverflow),
        },
        None => Ok(()),
    }
}

/// Adds `amount` to a counter.
pub fn credit(total: u64, amount: u64) -> (sum: Result<u64, ErrorCode>)
    ensures
        sum == credited(total, amount),
{
    match total.checked_add(amount) {
        Some(new_total) => Ok(new_total),
        None => Err(ErrorCode::ArithmeticOverflow),
    }
}

/// Checks a move of the cap from `current` to `proposed`.
pub fn check_cap(current: Option<u64>, proposed: Option<u64>) -> (checked: Result<(), ErrorCode>)
    ensures
        checked == match cap_refusal(current, proposed) {
            Some(refusal) => Err::<(), ErrorCode>(refusal),
            None => Ok(()),
        },
{
    match proposed {
        Some(new_cap) => match current {
            Some(cap) => if new_cap >= cap {
                Ok(())
            } else {
                Err(ErrorCode::CannotDecreaseMaxSupply)
            },
            None => Ok(()),
        },
        None => Ok(()),
    }
}

/// The tokens in circulation.
pub fn net_supply(total_mined: u64, total_burned: u64) -> (circulating: Option<u64>)
    ensures
        circulating == net(total_mined, total_burned),
{
    total_mined.checked_sub(total_burned)
}

} // verus!
