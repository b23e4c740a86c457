//! The stored state as mathematics, and what each operation makes of it.

use vstd::prelude::*;
use crate::ledger::Entries;

verus! {

/// Why an increment was turned down. The state is left as it was.
#[derive(Clone, Copy, Debug, PartialEq, Eq, Structural)]
pub enum Error {
    /// The sum does not fit a signed 32-bit number.
    Overflow,
    /// The caller has no entry yet and the store already holds `u32::MAX` of
    /// them, the most it can count.
    TooManyAccounts,
}

/// Whether `n` is a signed 32-bit number.
pub open spec fn fits_i32(n: int) -> bool {
    i32::MIN <= n <= i32::MAX
}

/// The sum of the amounts in `amounts`.
pub open spec fn total(amounts: Seq<i32>) -> int
    decreases amounts.len(),
{
    if amounts.len() == 0 {
        0
    } else {
        total(amounts.drop_last()) + amounts.last()
    }
}

/// The state of the contract: the global counter and the per-account counters.
///
/// An account without an entry in `mine` counts as holding zero.
pub struct State {
    /// The global counter.
    pub value: i32,
    /// The per-account counters, by the account's bytes.
    pub mine: Entries,
}

/// One call that changes the state.
pub enum Call {
    /// An increment of the global counter by `by`.
    Inc { by: i32 },
    /// An increment by `by` of the counter of the account whose bytes are
    /// `caller`.
    IncMine { caller: Seq<u8>, by: i32 },
}

impl Call {
    /// Whether the call is an increment of the counter that belongs to `id`.
    pub open spec fn touches(self, id: Seq<u8>) -> bool {
        self matches Call::IncMine { caller, .. } && caller == id
    }
}

impl State {
    /// The state right after construction with `init_value`: no account has
    /// an entry.
    pub open spec fn initial(init_value: i32) -> State {
        State { value: init_value, mine: Entries::empty() }
    }

    /// The global counter.
    pub open spec fn get(self) -> i32 {
        self.value
    }

    /// The counter of `id`: what is stored for it, and zero where nothing is.
    pub open spec fn mine_of(self, id: Seq<u8>) -> i32 {
        if self.mine.contains_key(id) {
            self.mine[id]
        } else {
            0
        }
    }

    /// How an increment of the global counter by `by` ends.
    pub open spec fn inc_result(self, by: i32) -> Result<(), Error> {
        if fits_i32(self.value + by) {
            Ok(())
        } else {
            Err(Error::Overflow)
        }
    }

    /// The state after an increment of the global counter by `by`: the sum
    /// where it fits, the state unchanged where it does not.
    pub open spec fn inc(self, by: i32) -> State {
        if self.inc_result(by) is Ok {
            State { value: (self.value + by) as i32, mine: self.mine }
        } else {
            self
        }
    }

    /// How an increment of the counter of `id` by `by` ends.
    pub open spec fn inc_mine_result(self, id: Seq<u8>, by: i32) -> Result<(), Error> {
        if !fits_i32(self.mine_of(id) + by) {
            Err(Error::Overflow)
        } else if !self.mine.contains_key(id) && self.mine.len() >= u32::MAX {
            Err(Error::TooManyAccounts)
        } else {
            Ok(())
        }
    }

    /// The state after an increment of the counter of `id` by `by`: the
    /// entry of `id` holds the sum where the call succeeds, and the state is
    /// unchanged where it does not.
    pub open spec fn inc_mine(self, id: Seq<u8>, by: i32) -> State {
        if self.inc_mine_result(id, by) is Ok {
            State { value: self.value, mine: self.mine.insert(id, (self.mine_of(id) + by) as i32) }
        } else {
            self
        }
    }

    /// The state after `call`.
    pub open spec fn step(self, call: Call) -> State {
        match call {
            Call::Inc { by } => self.inc(by),
            Call::IncMine { caller, by } => self.inc_mine(caller, by),
        }
    }

    /// The state after the calls of `calls`, first to last.
    pub open spec fn run(self, calls: Seq<Call>) -> State
        decreases calls.len(),
    {
        if calls.len() == 0 {
            self
        } else {
            self.run(calls.drop_last()).step(calls.last())
        }
    }

    /// The state after one increment of the counter of `id` for each amount
    /// of `amounts`, first to last.
    pub open spec fn inc_mine_all(self, id: Seq<u8>, amounts: Seq<i32>) -> State
        decreases amounts.len(),
    {
        if amounts.len() == 0 {
            self
        } else {
            self.inc_mine_all(id, amounts.drop_last()).inc_mine(id, amounts.last())
        }
    }

    /// Whether the store is one that calls can have built: finitely many
    /// entries, each under the 32 bytes of an account.
    pub open spec fn well_formed(self) -> bool {
        &&& self.mine.dom().finite()
        &&& forall|id: Seq<u8>| #[trigger] self.mine.contains_key(id) ==> id.len() == 32
    }
}

} // verus!
