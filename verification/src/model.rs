//! The rules of the escrow over mathematical values: what it holds is an
//! optional [`Deposit`], and each request either is refused for a stated
//! reason and changes nothing, or is accepted and changes what is held.

use vstd::prelude::*;
use crate::error::Error;

verus! {

/// A deposit as a mathematical value: who owns it and how much it is.
pub struct Deposit {
    pub owner: Seq<u8>,
    pub amount: nat,
}

/// What an escrow may hold: nothing, or a deposit that is not zero.
pub open spec fn well_formed(held: Option<Deposit>) -> bool {
    held matches Some(d) ==> d.amount > 0
}

/// The phrase that releases a deposit.
pub open spec fn secret_phrase() -> Seq<char> {
    "Hello, World!"@
}

/// Why a request to lock `value` is turned down by an escrow that holds
/// `held`, or `None` where it is accepted. A deposit that is already held is
/// reported before a missing value.
pub open spec fn deposit_refusal(held: Option<Deposit>, value: nat) -> Option<Error> {
    if held is Some {
        Some(Error::AssetsAlreadyLocked)
    } else if value == 0 {
        Some(Error::NoAssetsSent)
    } else {
        None
    }
}

/// What the escrow holds after `caller` has asked to lock `value`: the new
/// deposit where the request is accepted, and what it held before where it
/// is not.
pub open spec fn after_deposit(held: Option<Deposit>, caller: Seq<u8>, value: nat) -> Option<
    Deposit,
> {
    if deposit_refusal(held, value) is None {
        Some(Deposit { owner: caller, amount: value })
    } else {
        held
    }
}

/// Why `caller`, presenting `phrase`, is not entitled to what an escrow holds
/// that holds `held`, or `None` where the claim is in order. Ownership is
/// settled before the phrase is looked at, so that one who does not own the
/// deposit learns nothing about the phrase; an empty escrow answers as it
/// does to a stranger.
pub open spec fn claim_refusal(held: Option<Deposit>, caller: Seq<u8>, phrase: Seq<char>) -> Option<
    Error,
> {
    if !(held matches Some(d) && d.owner == caller) {
        Some(Error::NotLocker)
    } else if phrase != secret_phrase() {
        Some(Error::IncorrectMessage)
    } else {
        None
    }
}

/// Why an escrow that holds `held` does not release it once the transfer to
/// the owner has been tried, `paid` telling whether it went through; `None`
/// where the deposit is released.
pub open spec fn settle_refusal(held: Option<Deposit>, paid: bool) -> Option<Error> {
    if held is None {
        Some(Error::NotLocker)
    } else if !paid {
        Some(Error::TransferFailed)
    } else {
        None
    }
}

/// What the escrow holds after settling: nothing where the deposit is
/// released, and what it held before where it is not.
pub open spec fn after_settle(held: Option<Deposit>, paid: bool) -> Option<Deposit> {
    if settle_refusal(held, paid) is None {
        None
    } else {
        held
    }
}

/// Why a request by `caller` to redeem with `phrase` fails, `paid` telling
/// whether the transfer goes through once it is tried; `None` where the
/// request succeeds. The transfer is reached only by a claim that is in
/// order.
pub open spec fn redeem_refusal(
    held: Option<Deposit>,
    caller: Seq<u8>,
    phrase: Seq<char>,
    paid: bool,
) -> Option<Error> {
    match claim_refusal(held, caller, phrase) {
        Some(e) => Some(e),
        None => settle_refusal(held, paid),
    }
}

/// What the escrow holds after `caller` has asked to redeem with `phrase`:
/// nothing where the request succeeds, and what it held before where it
/// does not.
pub open spec fn after_redeem(
    held: Option<Deposit>,
    caller: Seq<u8>,
    phrase: Seq<char>,
    paid: bool,
) -> Option<Deposit> {
    if redeem_refusal(held, caller, phrase, paid) is None {
        None
    } else {
        held
    }
}

} // verus!
