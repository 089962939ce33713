//! The balances pallet: how much each account holds, and transfers between
//! accounts that can neither overdraw the sender nor overflow the receiver.

use crate::numeric::{checked_add_balance, checked_sub_balance, zero_balance};
use crate::support::{Dispatch, DispatchError, DispatchResult};
use crate::table::Table;
use crate::types::{AccountId, Balance};
use vstd::prelude::*;

verus! {

/// The balance that `m` records for `who`: zero where it records none.
pub open spec fn balance_of(m: Map<Seq<char>, u128>, who: Seq<char>) -> u128 {
    if m.contains_key(who) {
        m[who]
    } else {
        0
    }
}

/// Whether a transfer of `amount` from `caller` to `receiver` goes through on
/// the balances `m`, and why not if it does not. The sender's funds are
/// checked first, then the receiver's room.
pub open spec fn transfer_result(
    m: Map<Seq<char>, u128>,
    caller: Seq<char>,
    receiver: Seq<char>,
    amount: u128,
) -> DispatchResult {
    if balance_of(m, caller) < amount {
        Err(DispatchError::InsufficientFunds)
    } else if balance_of(m, receiver) + amount > u128::MAX {
        Err(DispatchError::BalanceOverflow)
    } else {
        Ok(())
    }
}

/// The balances after a transfer that went through. A transfer to oneself
/// writes the balance back as it was.
pub open spec fn transferred(
    m: Map<Seq<char>, u128>,
    caller: Seq<char>,
    receiver: Seq<char>,
    amount: u128,
) -> Map<Seq<char>, u128> {
    if caller == receiver {
        m.insert(caller, balance_of(m, caller))
    } else {
        m.insert(caller, (balance_of(m, caller) - amount) as u128).insert(
            receiver,
            (balance_of(m, receiver) + amount) as u128,
        )
    }
}

/// The balances after an attempted transfer: changed only if it went through.
pub open spec fn after_transfer(
    m: Map<Seq<char>, u128>,
    caller: Seq<char>,
    receiver: Seq<char>,
    amount: u128,
) -> Map<Seq<char>, u128> {
    if transfer_result(m, caller, receiver, amount) is Ok {
        transferred(m, caller, receiver, amount)
    } else {
        m
    }
}

/// The operations of this pallet that an extrinsic can ask for.
#[derive(Debug)]
pub enum Call {
    /// Move `amount` from the caller to `receiver`.
    Transfer { receiver: AccountId, amount: Balance },
}

/// The outcome of `call` made by `caller` on the balances `m`.
pub open spec fn call_result(m: Map<Seq<char>, u128>, caller: Seq<char>, call: Call) -> DispatchResult {
    match call {
        Call::Transfer { receiver, amount } => transfer_result(m, caller, receiver@, amount),
    }
}

/// The balances after `call` made by `caller` on the balances `m`.
pub open spec fn after_call(m: Map<Seq<char>, u128>, caller: Seq<char>, call: Call) -> Map<
    Seq<char>,
    u128,
> {
    match call {
        Call::Transfer { receiver, amount } => after_transfer(m, caller, receiver@, amount),
    }
}

/// An account for which no balance is recorded has balance zero.
pub proof fn lemma_unset_balance_is_zero(m: Map<Seq<char>, u128>, who: Seq<char>)
    requires
        !m.contains_key(who),
    ensures
        balance_of(m, who) == 0,
{
}

/// Once a balance is set, it is the balance read back, and the balance of
/// every other account is as before.
pub proof fn lemma_set_balance_round_trip(
    m: Map<Seq<char>, u128>,
    who: Seq<char>,
    amount: u128,
    other: Seq<char>,
)
    ensures
        balance_of(m.insert(who, amount), who) == amount,
        other != who ==> balance_of(m.insert(who, amount), other) == balance_of(m, other),
{
}

/// A transfer of more than the caller holds fails for want of funds and
/// changes no balance.
pub proof fn lemma_transfer_insufficient_funds(
    m: Map<Seq<char>, u128>,
    caller: Seq<char>,
    receiver: Seq<char>,
    amount: u128,
)
    requires
        balance_of(m, caller) < amount,
    ensures
        transfer_result(m, caller, receiver, amount) == Err::<(), DispatchError>(
            DispatchError::InsufficientFunds,
        ),
        after_transfer(m, caller, receiver, amount) == m,
{
}

/// A transfer that the caller can afford but that the receiver has no room
/// for fails with an overflow and changes no balance.
pub proof fn lemma_transfer_overflow(
    m: Map<Seq<char>, u128>,
    caller: Seq<char>,
    receiver: Seq<char>,
    amount: u128,
)
    requires
        balance_of(m, caller) >= amount,
        balance_of(m, receiver) + amount > u128::MAX,
    ensures
        transfer_result(m, caller, receiver, amount) == Err::<(), DispatchError>(
            DispatchError::BalanceOverflow,
        ),
        after_transfer(m, caller, receiver, amount) == m,
{
}

/// A transfer between two different accounts that the caller can afford and
/// the receiver has room for succeeds: the caller's balance falls by the
/// amount, the receiver's rises by it, and no other balance changes.
pub proof fn lemma_transfer_moves_amount(
    m: Map<Seq<char>, u128>,
    caller: Seq<char>,
    receiver: Seq<char>,
    amount: u128,
    other: Seq<char>,
)
    requires
        caller != receiver,
        balance_of(m, caller) >= amount,
        balance_of(m, receiver) + amount <= u128::MAX,
    ensures
        transfer_result(m, caller, receiver, amount) is Ok,
        balance_of(after_transfer(m, caller, receiver, amount), caller) == balance_of(m, caller)
            - amount,
        balance_of(after_transfer(m, caller, receiver, amount), receiver) == balance_of(
            m,
            receiver,
        ) + amount,
        other != caller && other != receiver ==> balance_of(
            after_transfer(m, caller, receiver, amount),
            other,
        ) == balance_of(m, other),
{
}

/// A transfer to oneself that passes both checks leaves every balance as it
/// was.
pub proof fn lemma_transfer_to_self(
    m: Map<Seq<char>, u128>,
    caller: Seq<char>,
    amount: u128,
    other: Seq<char>,
)
    requires
        transfer_result(m, caller, caller, amount) is Ok,
    ensures
        balance_of(after_transfer(m, caller, caller, amount), other) == balance_of(m, other),
{
}

/// Whatever becomes of a transfer, the balances of the caller and the
/// receiver add up to what they added up to before.
pub proof fn lemma_transfer_conserves(
    m: Map<Seq<char>, u128>,
    caller: Seq<char>,
    receiver: Seq<char>,
    amount: u128,
)
    ensures
        balance_of(after_transfer(m, caller, receiver, amount), caller) + balance_of(
            after_transfer(m, caller, receiver, amount),
            receiver,
        ) == balance_of(m, caller) + balance_of(m, receiver),
{
}

/// The balance of every account that has one.
#[derive(Debug)]
pub struct Pallet {
    balances: Table<Balance>,
}

impl View for Pallet {
    type V = Map<Seq<char>, u128>;

    closed spec fn view(&self) -> Map<Seq<char>, u128> {
        self.balances@
    }
}

impl Pallet {
    /// A pallet in which no account has a balance.
    pub fn new() -> (p: Self)
        ensures
            p@ == Map::<Seq<char>, u128>::empty(),
    {
        Pallet { balances: Table::new() }
    }

    /// Sets the balance of `who` to `amount`.
    pub fn set_balance(&mut self, who: &AccountId, amount: Balance)
        ensures
            final(self)@ == old(self)@.insert(who@, amount),
    {
        self.balances.insert(who.clone(), amount);
    }

    /// The balance of `who`, which is zero until one is set.
    pub fn balance(&self, who: &AccountId) -> (b: Balance)
        ensures
            b == balance_of(self@, who@),
    {
        match self.balances.get(who) {
            Some(b) => *b,
            None => zero_balance(),
        }
    }

    /// Moves `amount` from `caller` to `receiver`, or changes nothing and says
    /// why: the caller holds too little, or the receiver would hold too much.
    pub fn transfer(&mut self, caller: AccountId, receiver: AccountId, amount: Balance) -> (r:
        DispatchResult)
        ensures
            r == transfer_result(old(self)@, caller@, receiver@, amount),
            final(self)@ == after_transfer(old(self)@, caller@, receiver@, amount),
    {
        let caller_balance = self.balance(&caller);
        let receiver_balance = self.balance(&receiver);
        let new_caller_balance = match checked_sub_balance(caller_balance, amount) {
            Some(b) => b,
            None => {
                return Err(DispatchError::InsufficientFunds);
            },
        };
        let new_receiver_balance = match checked_add_balance(receiver_balance, amount) {
            Some(b) => b,
            None => {
                return Err(DispatchError::BalanceOverflow);
            },
        };
        if caller == receiver {
            self.set_balance(&caller, caller_balance);
        } else {
            self.set_balance(&caller, new_caller_balance);
            self.set_balance(&receiver, new_receiver_balance);
        }
        Ok(())
    }

}

impl Dispatch for Pallet {
    type Caller = AccountId;

    type Call = Call;

    /// Carries out `call` on behalf of `caller` and hands its outcome on.
    fn dispatch(&mut self, caller: AccountId, call: Call) -> (r: DispatchResult)
        ensures
            r == call_result(old(self)@, caller@, call),
            final(self)@ == after_call(old(self)@, caller@, call),
    {
        match call {
            Call::Transfer { receiver, amount } => self.transfer(caller, receiver, amount),
        }
    }
}

} // verus!
