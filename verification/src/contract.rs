//! The contract: a global counter and one counter per account.

use vstd::prelude::*;
use crate::account::AccountId;
use crate::ledger::{account_map_entries, AccountMap};
use crate::state::{Error, State};

verus! {

/// The storage of the contract.
///
/// Arithmetic is checked: an increment whose sum does not fit a signed
/// 32-bit number is turned down and changes nothing.
pub struct Incrementer {
    /// The global counter.
    value: i32,
    /// The counter of each account that has incremented its own.
    my_value: AccountMap,
}

impl View for Incrementer {
    type V = State;

    closed spec fn view(&self) -> State {
        State { value: self.value, mine: account_map_entries(self.my_value) }
    }
}

impl Incrementer {
    /// Every contract holds a store that calls can have built: finitely
    /// many entries, each under the 32 bytes of an account. The contracts of
    /// [`Incrementer::inc`], [`Incrementer::inc_mine`] and
    /// [`Incrementer::accounts`] say so of the contract they leave or read.
    #[verifier::type_invariant]
    spec fn keeps_well_formed(&self) -> bool {
        self@.well_formed()
    }

    /// Makes a contract whose global counter is `init_value` and in which no
    /// account has an entry.
    pub fn new(init_value: i32) -> (made: Incrementer)
        ensures
            made@ == State::initial(init_value),
    {
        Incrementer { value: init_value, my_value: AccountMap::new() }
    }

    /// Makes a contract whose global counter is zero and in which no account
    /// has an entry.
    pub fn default() -> (made: Incrementer)
        ensures
            made@ == State::initial(0),
    {
        Incrementer::new(0)
    }

    /// The global counter.
    pub fn get(&self) -> (value: i32)
        ensures
            value == self@.get(),
    {
        self.value
    }

    /// Adds `by` to the global counter, whoever calls.
    ///
    /// Fails with [`Error::Overflow`], changing nothing, exactly when the sum
    /// does not fit a signed 32-bit number.
    pub fn inc(&mut self, by: i32) -> (done: Result<(), Error>)
        ensures
            done == old(self)@.inc_result(by),
            final(self)@ == old(self)@.inc(by),
            final(self)@.well_formed(),
    {
        proof {
            use_type_invariant(&*self);
        }
        match self.value.checked_add(by) {
            Some(sum) => {
                self.value = sum;
                Ok(())
            },
            None => Err(Error::Overflow),
        }
    }

    /// The counter of `caller`: zero for an account that never incremented
    /// its own. Reading makes no entry.
    pub fn get_mine(&self, caller: &AccountId) -> (value: i32)
        ensures
            value == self@.mine_of(caller@),
    {
        self.my_value_or_zero(caller)
    }

    /// Adds `by` to the counter of `caller`, and to no other.
    ///
    /// Fails, changing nothing, with [`Error::Overflow`] exactly when the sum
    /// does not fit a signed 32-bit number, and otherwise with
    /// [`Error::TooManyAccounts`] exactly when `caller` has no entry and the
    /// store cannot count one more.
    pub fn inc_mine(&mut self, caller: &AccountId, by: i32) -> (done: Result<(), Error>)
        ensures
            done == old(self)@.inc_mine_result(caller@, by),
            final(self)@ == old(self)@.inc_mine(caller@, by),
            final(self)@.well_formed(),
    {
        proof {
            use_type_invariant(&*self);
        }
        let my_value = self.my_value_or_zero(caller);
        match my_value.checked_add(by) {
            Some(sum) => {
                if self.my_value.len() == u32::MAX && self.my_value.get(caller).is_none() {
                    Err(Error::TooManyAccounts)
                } else {
                    self.my_value.insert(caller, sum);
                    Ok(())
                }
            },
            None => Err(Error::Overflow),
        }
    }

    /// How many accounts have an entry.
    pub fn accounts(&self) -> (count: u32)
        ensures
            count == self@.mine.len(),
            self@.well_formed(),
    {
        proof {
            use_type_invariant(self);
        }
        self.my_value.len()
    }

    /// The number stored for `of`, and zero where nothing is stored for it.
    fn my_value_or_zero(&self, of: &AccountId) -> (value: i32)
        ensures
            value == self@.mine_of(of@),
    {
        match self.my_value.get(of) {
            Some(stored) => stored,
            None => 0,
        }
    }
}

} // verus!
