//! Notifications that a successful operation hands to the event sink.

use vstd::prelude::*;
use crate::account::{AccountId, Balance};
use crate::model::Deposit;

verus! {

/// Tells that `locker` has locked `amount`.
#[derive(Clone, Copy, Debug, PartialEq, Eq)]
pub struct Locked {
    /// The account that locked the balance.
    pub locker: AccountId,
    /// The balance that was locked.
    pub amount: Balance,
}

/// Tells that `locker` has redeemed `amount`.
#[derive(Clone, Copy, Debug, PartialEq, Eq)]
pub struct Redeemed {
    /// The account that redeemed the balance.
    pub locker: AccountId,
    /// The balance that was paid out.
    pub amount: Balance,
}

impl View for Locked {
    type V = Deposit;

    /// The deposit that the notification reports as locked.
    open spec fn view(&self) -> Deposit {
        Deposit { owner: self.locker@, amount: self.amount as nat }
    }
}

impl View for Redeemed {
    type V = Deposit;

    /// The deposit that the notification reports as paid out.
    open spec fn view(&self) -> Deposit {
        Deposit { owner: self.locker@, amount: self.amount as nat }
    }
}

} // verus!
