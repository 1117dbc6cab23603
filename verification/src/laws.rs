//! What follows from the rules of the escrow, whoever calls and whatever
//! they send.

use vstd::prelude::*;
use crate::error::Error;
use crate::escrow::{redeemed, settled};
use crate::event::Redeemed;
use crate::model::{
    after_deposit, after_redeem, claim_refusal, deposit_refusal, redeem_refusal, secret_phrase,
    well_formed, Deposit,
};

verus! {

/// An empty escrow answers every claim, whoever makes it and whatever phrase
/// they present, as it answers a stranger, and stays empty.
pub proof fn lemma_empty_refuses_every_claim(caller: Seq<u8>, phrase: Seq<char>, paid: bool)
    ensures
        claim_refusal(None, caller, phrase) == Some(Error::NotLocker),
        redeem_refusal(None, caller, phrase, paid) == Some(Error::NotLocker),
        after_redeem(None, caller, phrase, paid) is None,
{
}

/// An empty escrow accepts every deposit that is not zero, and then holds
/// exactly that deposit for the one who made it.
pub proof fn lemma_empty_accepts_deposit(caller: Seq<u8>, value: nat)
    requires
        value > 0,
    ensures
        deposit_refusal(None, value) is None,
        after_deposit(None, caller, value) == Some(Deposit { owner: caller, amount: value }),
{
}

/// An empty escrow turns down a deposit of nothing for want of a value, and
/// stays empty.
pub proof fn lemma_empty_refuses_nothing(caller: Seq<u8>)
    ensures
        deposit_refusal(None, 0) == Some(Error::NoAssetsSent),
        after_deposit(None, caller, 0) is None,
{
}

/// An escrow that holds a deposit turns down every further one, whoever
/// offers it and however much, and keeps what it holds.
pub proof fn lemma_locked_refuses_deposit(held: Option<Deposit>, caller: Seq<u8>, value: nat)
    requires
        held is Some,
    ensures
        deposit_refusal(held, value) == Some(Error::AssetsAlreadyLocked),
        after_deposit(held, caller, value) == held,
{
}

/// One who does not own the deposit is told so whatever phrase they present,
/// the right one included: the answer carries nothing about the phrase. The
/// deposit stays.
pub proof fn lemma_stranger_learns_nothing(
    held: Option<Deposit>,
    caller: Seq<u8>,
    phrase: Seq<char>,
    paid: bool,
)
    requires
        held matches Some(d) ==> d.owner != caller,
    ensures
        redeem_refusal(held, caller, phrase, paid) == Some(Error::NotLocker),
        redeem_refusal(held, caller, phrase, paid) == redeem_refusal(
            held,
            caller,
            secret_phrase(),
            paid,
        ),
        after_redeem(held, caller, phrase, paid) == held,
{
}

/// The owner who presents another phrase than the agreed one is told that
/// the phrase is wrong, before any transfer is tried, and the deposit stays.
pub proof fn lemma_wrong_phrase_is_refused(
    held: Option<Deposit>,
    caller: Seq<u8>,
    phrase: Seq<char>,
    paid: bool,
)
    requires
        held matches Some(d) && d.owner == caller,
        phrase != secret_phrase(),
    ensures
        redeem_refusal(held, caller, phrase, paid) == Some(Error::IncorrectMessage),
        after_redeem(held, caller, phrase, paid) == held,
{
}

/// The owner who presents the agreed phrase has the deposit released exactly
/// where the transfer goes through. Where it does not, the request fails for
/// that reason and the deposit stays as it was, so that it can be claimed
/// again.
pub proof fn lemma_release_follows_transfer(held: Option<Deposit>, caller: Seq<u8>, paid: bool)
    requires
        held matches Some(d) && d.owner == caller,
    ensures
        paid ==> redeem_refusal(held, caller, secret_phrase(), paid) is None && after_redeem(
            held,
            caller,
            secret_phrase(),
            paid,
        ) is None,
        !paid ==> redeem_refusal(held, caller, secret_phrase(), paid) == Some(
            Error::TransferFailed,
        ) && after_redeem(held, caller, secret_phrase(), paid) == held,
{
}

/// A deposit leaves the escrow only with a transfer that went through:
/// whoever asks and with whatever phrase, a request during which no balance
/// was moved leaves the escrow as it was.
pub proof fn lemma_nothing_released_unpaid(
    held: Option<Deposit>,
    caller: Seq<u8>,
    phrase: Seq<char>,
)
    ensures
        redeem_refusal(held, caller, phrase, false) is Some,
        after_redeem(held, caller, phrase, false) == held,
{
}

/// A request that fails, to lock or to redeem, changes nothing; one that
/// succeeds flips the escrow between empty and locked.
pub proof fn lemma_refusal_changes_nothing(
    held: Option<Deposit>,
    caller: Seq<u8>,
    value: nat,
    phrase: Seq<char>,
    paid: bool,
)
    ensures
        deposit_refusal(held, value) is Some ==> after_deposit(held, caller, value) == held,
        deposit_refusal(held, value) is None ==> held is None && after_deposit(
            held,
            caller,
            value,
        ) is Some,
        redeem_refusal(held, caller, phrase, paid) is Some ==> after_redeem(
            held,
            caller,
            phrase,
            paid,
        ) == held,
        redeem_refusal(held, caller, phrase, paid) is None ==> held is Some && after_redeem(
            held,
            caller,
            phrase,
            paid,
        ) is None,
{
}

/// Whatever is asked of it, the escrow never comes to hold a deposit of
/// nothing.
pub proof fn lemma_well_formed_is_kept(
    held: Option<Deposit>,
    caller: Seq<u8>,
    value: nat,
    phrase: Seq<char>,
    paid: bool,
)
    requires
        well_formed(held),
    ensures
        well_formed(after_deposit(held, caller, value)),
        well_formed(after_redeem(held, caller, phrase, paid)),
{
}

/// To find a claim in order and then to settle it is to redeem: a host that
/// makes the transfer itself, between the two, ends where a request to
/// redeem ends. A claim that is not in order is a request to redeem that
/// fails for the same reason, whatever a transfer would have done.
pub proof fn lemma_settling_redeems(
    before: Option<Deposit>,
    caller: Seq<u8>,
    phrase: Seq<char>,
    paid: bool,
    after: Option<Deposit>,
    answer: Result<Redeemed, Error>,
)
    ensures
        claim_refusal(before, caller, phrase) is None && settled(before, paid, after, answer)
            ==> redeemed(before, caller, phrase, paid, after, answer),
        claim_refusal(before, caller, phrase) matches Some(e) ==> redeemed(
            before,
            caller,
            phrase,
            paid,
            before,
            Err(e),
        ),
{
}

/// What the escrow holds after one round: `round.owner` locks
/// `round.amount` and then redeems it with the agreed phrase, the transfer
/// going through.
pub open spec fn after_round(held: Option<Deposit>, round: Deposit) -> Option<Deposit> {
    after_redeem(
        after_deposit(held, round.owner, round.amount),
        round.owner,
        secret_phrase(),
        true,
    )
}

/// Both requests of a round succeed: the deposit is accepted and then
/// released.
pub open spec fn round_succeeds(held: Option<Deposit>, round: Deposit) -> bool {
    &&& deposit_refusal(held, round.amount) is None
    &&& redeem_refusal(
        after_deposit(held, round.owner, round.amount),
        round.owner,
        secret_phrase(),
        true,
    ) is None
}

/// What the escrow holds after the rounds of `rounds`, one after the other.
pub open spec fn after_rounds(held: Option<Deposit>, rounds: Seq<Deposit>) -> Option<Deposit>
    decreases rounds.len(),
{
    if rounds.len() == 0 {
        held
    } else {
        after_round(after_rounds(held, rounds.drop_last()), rounds.last())
    }
}

/// Every round of `rounds` succeeds, when they are made one after the other
/// on an escrow that holds `held` at first.
pub open spec fn rounds_succeed(held: Option<Deposit>, rounds: Seq<Deposit>) -> bool
    decreases rounds.len(),
{
    rounds.len() > 0 ==> {
        &&& rounds_succeed(held, rounds.drop_last())
        &&& round_succeeds(after_rounds(held, rounds.drop_last()), rounds.last())
    }
}

/// A round on an empty escrow succeeds and leaves it empty again.
pub proof fn lemma_round_returns_to_empty(round: Deposit)
    requires
        round.amount > 0,
    ensures
        round_succeeds(None, round),
        after_deposit(None, round.owner, round.amount) == Some(round),
        after_round(None, round) is None,
{
}

/// Rounds can follow one another without end, by the same owner or by
/// different ones: on an escrow that is empty at first, every round of any
/// sequence of deposits that are not zero succeeds, and after the last of
/// them, as after each one before it, the escrow is empty again.
pub proof fn lemma_rounds_return_to_empty(rounds: Seq<Deposit>)
    requires
        forall|i: int| 0 <= i < rounds.len() ==> rounds[i].amount > 0,
    ensures
        rounds_succeed(None, rounds),
        after_rounds(None, rounds) is None,
    decreases rounds.len(),
{
    if rounds.len() > 0 {
        lemma_rounds_return_to_empty(rounds.drop_last());
        lemma_round_returns_to_empty(rounds.last());
    }
}

} // verus!
