//! The escrow itself: what it holds, and the rules by which a deposit is
//! accepted and paid out again.

use vstd::prelude::*;
use crate::account::{AccountId, Balance};
use crate::error::Error;
use crate::event::{Locked, Redeemed};
use crate::model::{
    after_deposit, after_redeem, after_settle, claim_refusal, deposit_refusal, redeem_refusal,
    secret_phrase, settle_refusal, well_formed, Deposit,
};

verus! {

/// The whole effect of a request by `caller` to lock `value`: the escrow goes
/// from `before` to `after` and answers `answer`.
pub open spec fn deposited(
    before: Option<Deposit>,
    caller: Seq<u8>,
    value: nat,
    after: Option<Deposit>,
    answer: Result<Locked, Error>,
) -> bool {
    &&& after == after_deposit(before, caller, value)
    &&& match answer {
        Ok(event) => deposit_refusal(before, value) is None && event@ == (Deposit {
            owner: caller,
            amount: value,
        }),
        Err(e) => deposit_refusal(before, value) == Some(e),
    }
}

/// The whole effect of settling after the transfer was tried: the escrow
/// goes from `before` to `after` and answers `answer`. Only a transfer that
/// went through empties the escrow.
pub open spec fn settled(
    before: Option<Deposit>,
    paid: bool,
    after: Option<Deposit>,
    answer: Result<Redeemed, Error>,
) -> bool {
    &&& after == after_settle(before, paid)
    &&& match answer {
        Ok(event) => settle_refusal(before, paid) is None && before == Some(event@),
        Err(e) => settle_refusal(before, paid) == Some(e),
    }
}

/// The whole effect of a request by `caller` to redeem with `phrase`: the
/// escrow goes from `before` to `after` and answers `answer`.
pub open spec fn redeemed(
    before: Option<Deposit>,
    caller: Seq<u8>,
    phrase: Seq<char>,
    paid: bool,
    after: Option<Deposit>,
    answer: Result<Redeemed, Error>,
) -> bool {
    &&& after == after_redeem(before, caller, phrase, paid)
    &&& match answer {
        Ok(event) => redeem_refusal(before, caller, phrase, paid) is None && before == Some(
            event@,
        ),
        Err(e) => redeem_refusal(before, caller, phrase, paid) == Some(e),
    }
}

/// What an escrow holds that has `locker` on record as the owner of
/// `locked_amount`.
pub open spec fn holding(locker: Option<AccountId>, locked_amount: Balance) -> Option<Deposit> {
    match locker {
        Some(owner) => Some(Deposit { owner: owner@, amount: locked_amount as nat }),
        None => None,
    }
}

/// A two-party escrow with a single slot. It is either empty or holds one
/// deposit together with the account that made it.
pub struct LockUnlockSmartContract {
    /// The account whose balance is held, if any.
    locker: Option<AccountId>,
    /// The balance that is held; zero while the escrow is empty.
    locked_amount: Balance,
}

impl View for LockUnlockSmartContract {
    type V = Option<Deposit>;

    /// The deposit that is held, or `None` while the escrow is empty.
    closed spec fn view(&self) -> Option<Deposit> {
        holding(self.locker, self.locked_amount)
    }
}

impl LockUnlockSmartContract {
    /// A balance is held exactly while an owner is recorded.
    #[verifier::type_invariant]
    spec fn consistent(self) -> bool {
        self.locker is Some <==> self.locked_amount > 0
    }

    /// An empty escrow.
    pub fn new() -> (escrow: LockUnlockSmartContract)
        ensures
            escrow@ is None,
    {
        LockUnlockSmartContract { locker: None, locked_amount: 0 }
    }

    /// The escrow that holds `locked_amount` for `locker`. There is none
    /// where an owner comes without a balance or a balance without an owner.
    pub fn from_parts(locker: Option<AccountId>, locked_amount: Balance) -> (escrow: Option<
        LockUnlockSmartContract,
    >)
        ensures
            escrow is Some <==> (locker is Some <==> locked_amount > 0),
            escrow matches Some(e) ==> e@ == holding(locker, locked_amount),
    {
        if locker.is_some() == (locked_amount > 0) {
            Some(LockUnlockSmartContract { locker, locked_amount })
        } else {
            None
        }
    }

    /// The account whose balance is held, if any.
    pub fn locker(&self) -> (owner: Option<AccountId>)
        ensures
            owner is Some <==> self@ is Some,
            owner matches Some(id) ==> id@ == self@->0.owner,
    {
        self.locker
    }

    /// The balance that is held: zero exactly while the escrow is empty.
    pub fn locked_amount(&self) -> (amount: Balance)
        ensures
            amount > 0 <==> self@ is Some,
            self@ matches Some(d) ==> d.amount == amount,
            well_formed(self@),
    {
        proof {
            use_type_invariant(self);
        }
        self.locked_amount
    }

    /// Locks `value`, which `caller` sent along, as the deposit, provided
    /// that the escrow is empty and `value` is not zero, and returns the
    /// notification that is due. A request that is turned down leaves the
    /// escrow as it was.
    pub fn lock(&mut self, caller: AccountId, value: Balance) -> (answer: Result<Locked, Error>)
        ensures
            deposited(old(self)@, caller@, value as nat, final(self)@, answer),
            old(self)@ is None && value > 0 ==> answer == Ok::<Locked, Error>(
                Locked { locker: caller, amount: value },
            ) && final(self)@ == Some(Deposit { owner: caller@, amount: value as nat }),
            old(self)@ is None && value == 0 ==> answer == Err::<Locked, Error>(Error::NoAssetsSent)
                && final(self)@ is None,
            old(self)@ is Some ==> answer == Err::<Locked, Error>(Error::AssetsAlreadyLocked)
                && final(self)@ == old(self)@,
            well_formed(final(self)@),
    {
        proof {
            use_type_invariant(&*self);
        }
        if self.locker.is_some() {
            return Err(Error::AssetsAlreadyLocked);
        }
        if value == 0 {
            return Err(Error::NoAssetsSent);
        }
        *self = LockUnlockSmartContract { locker: Some(caller), locked_amount: value };
        Ok(Locked { locker: caller, amount: value })
    }

    /// Tells whether `caller`, presenting `message`, may have the deposit,
    /// and if so how much is to be transferred to them. Nothing is changed:
    /// the deposit stays until the transfer has been tried and settled.
    pub fn authorize(&self, caller: AccountId, message: &str) -> (answer: Result<Balance, Error>)
        ensures
            answer matches Ok(amount) ==> claim_refusal(self@, caller@, message@) is None
                && amount > 0 && self@ == Some(Deposit { owner: caller@, amount: amount as nat }),
            answer matches Err(e) ==> claim_refusal(self@, caller@, message@) == Some(e),
            self@ is None ==> answer == Err::<Balance, Error>(Error::NotLocker),
    {
        proof {
            use_type_invariant(self);
        }
        let owned = match self.locker {
            Some(owner) => owner == caller,
            None => false,
        };
        if !owned {
            return Err(Error::NotLocker);
        }
        if message.to_owned() != "Hello, World!".to_owned() {
            return Err(Error::IncorrectMessage);
        }
        Ok(self.locked_amount)
    }

    /// Concludes a claim once the transfer to the owner has been tried. Where
    /// it went through (`paid`), the escrow is emptied and the deposit is
    /// reported as redeemed; where it did not, the deposit stays, so that the
    /// claim can be made again.
    pub fn settle(&mut self, paid: bool) -> (answer: Result<Redeemed, Error>)
        ensures
            settled(old(self)@, paid, final(self)@, answer),
            well_formed(final(self)@),
    {
        proof {
            use_type_invariant(&*self);
        }
        let owner = match self.locker {
            Some(owner) => owner,
            None => {
                return Err(Error::NotLocker);
            },
        };
        if !paid {
            return Err(Error::TransferFailed);
        }
        let amount = self.locked_amount;
        *self = LockUnlockSmartContract { locker: None, locked_amount: 0 };
        Ok(Redeemed { locker: owner, amount })
    }

    /// Pays the deposit back to `caller`, provided that they own it and
    /// `message` is the agreed phrase, and returns the notification that is
    /// due. Only once both have been found in order is `transfer` asked,
    /// once, to move the whole deposit to `caller`, and only once it has
    /// answered that the balance was moved is the escrow emptied. A claim
    /// that is refused, or whose transfer fails, leaves the escrow as it
    /// was.
    pub fn redeem<F>(&mut self, caller: AccountId, message: String, transfer: F) -> (answer: Result<
        Redeemed,
        Error,
    >) where F: FnOnce(AccountId, Balance) -> bool
        requires
            claim_refusal(old(self)@, caller@, message@) is None ==> call_requires(
                transfer,
                (caller, old(self)@->0.amount as Balance),
            ),
        ensures
            claim_refusal(old(self)@, caller@, message@) matches Some(e) ==> answer == Err::<
                Redeemed,
                Error,
            >(e) && final(self)@ == old(self)@,
            claim_refusal(old(self)@, caller@, message@) is None ==> (exists|paid: bool| #[trigger]
                call_ensures(transfer, (caller, old(self)@->0.amount as Balance), paid) && settled(
                    old(self)@,
                    paid,
                    final(self)@,
                    answer,
                )),
            exists|paid: bool| #[trigger]
                redeemed(old(self)@, caller@, message@, paid, final(self)@, answer),
            old(self)@ is None ==> answer == Err::<Redeemed, Error>(Error::NotLocker),
            message@ != secret_phrase() ==> answer == Err::<Redeemed, Error>(Error::NotLocker)
                || answer == Err::<Redeemed, Error>(Error::IncorrectMessage),
            answer matches Ok(event) ==> old(self)@ == Some(event@) && final(self)@ is None,
            answer is Err ==> final(self)@ == old(self)@,
            well_formed(final(self)@),
    {
        proof {
            use_type_invariant(&*self);
        }
        let amount = match self.authorize(caller, message.as_str()) {
            Ok(amount) => amount,
            Err(e) => {
                assert(redeemed(old(self)@, caller@, message@, false, self@, Err(e)));
                return Err(e);
            },
        };
        let paid = transfer(caller, amount);
        let answer = self.settle(paid);
        assert(redeemed(old(self)@, caller@, message@, paid, self@, answer));
        answer
    }
}

impl Default for LockUnlockSmartContract {
    /// An empty escrow.
    fn default() -> (escrow: LockUnlockSmartContract)
        ensures
            escrow@ is None,
    {
        LockUnlockSmartContract::new()
    }
}

} // verus!
