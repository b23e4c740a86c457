//! What holds of the contract whatever is called: laws over the model that
//! the contracts of [`crate::contract::Incrementer`] are stated in.

use vstd::prelude::*;
use crate::state::{fits_i32, total, Call, State};

verus! {

/// A contract made with `init_value` reads `init_value` as its global
/// counter.
pub proof fn lemma_initial_reads_init_value(init_value: i32)
    ensures
        State::initial(init_value).get() == init_value,
{
}

/// An increment of one account's counter leaves the counter of every other
/// account, and the global counter, as they were.
pub proof fn lemma_inc_mine_keeps_others(s: State, caller: Seq<u8>, by: i32, other: Seq<u8>)
    requires
        caller != other,
    ensures
        s.inc_mine(caller, by).mine_of(other) == s.mine_of(other),
        s.inc_mine(caller, by).get() == s.get(),
{
}

/// A call leaves the counter of `id` as it was unless it is an increment of
/// that very counter.
pub proof fn lemma_step_keeps_untouched(s: State, call: Call, id: Seq<u8>)
    requires
        !call.touches(id),
    ensures
        s.step(call).mine_of(id) == s.mine_of(id),
{
    match call {
        Call::Inc { by } => {},
        Call::IncMine { caller, by } => {
            lemma_inc_mine_keeps_others(s, caller, by, id);
        },
    }
}

/// Calls of which none increments the counter of `id` leave that counter as
/// it was.
pub proof fn lemma_run_keeps_untouched(s: State, calls: Seq<Call>, id: Seq<u8>)
    requires
        forall|i: int| 0 <= i < calls.len() ==> !(#[trigger] calls[i]).touches(id),
    ensures
        s.run(calls).mine_of(id) == s.mine_of(id),
    decreases calls.len(),
{
    if calls.len() > 0 {
        lemma_run_keeps_untouched(s, calls.drop_last(), id);
        lemma_step_keeps_untouched(s.run(calls.drop_last()), calls.last(), id);
    }
}

/// An account whose counter no call has incremented since construction
/// reads zero, whatever else was called.
pub proof fn lemma_untouched_account_reads_zero(init_value: i32, calls: Seq<Call>, id: Seq<u8>)
    requires
        forall|i: int| 0 <= i < calls.len() ==> !(#[trigger] calls[i]).touches(id),
    ensures
        State::initial(init_value).run(calls).mine_of(id) == 0,
{
    lemma_run_keeps_untouched(State::initial(init_value), calls, id);
}

/// Increments of one account's counter add up: where every running total
/// fits a signed 32-bit number, and the store can take the account's entry,
/// the counter ends at what it was plus the sum of the amounts. Nothing else
/// changes on the way.
pub proof fn lemma_inc_mine_all_adds_total(s: State, id: Seq<u8>, amounts: Seq<i32>)
    requires
        amounts.len() > 0 ==> s.mine.contains_key(id) || s.mine.len() < u32::MAX,
        forall|k: int|
            0 <= k <= amounts.len() ==> fits_i32(s.mine_of(id) + #[trigger] total(amounts.take(k))),
    ensures
        s.inc_mine_all(id, amounts).mine_of(id) == s.mine_of(id) + total(amounts),
        s.inc_mine_all(id, amounts).get() == s.get(),
        amounts.len() > 0 ==> s.inc_mine_all(id, amounts).mine.contains_key(id),
    decreases amounts.len(),
{
    if amounts.len() > 0 {
        let front = amounts.drop_last();
        assert forall|k: int| 0 <= k <= front.len() implies fits_i32(
            s.mine_of(id) + #[trigger] total(front.take(k)),
        ) by {
            assert(front.take(k) == amounts.take(k));
        }
        lemma_inc_mine_all_adds_total(s, id, front);
        assert(amounts.take(amounts.len() as int) == amounts);
    }
}

/// From construction on, increments of one account's counter leave it at
/// the sum of the amounts, where every running total fits a signed 32-bit
/// number.
pub proof fn lemma_fresh_inc_mine_all_reads_total(init_value: i32, id: Seq<u8>, amounts: Seq<i32>)
    requires
        forall|k: int| 0 <= k <= amounts.len() ==> fits_i32(#[trigger] total(amounts.take(k))),
    ensures
        State::initial(init_value).inc_mine_all(id, amounts).mine_of(id) == total(amounts),
{
    lemma_inc_mine_all_adds_total(State::initial(init_value), id, amounts);
}

/// An increment of the global counter is there for every reader: it names
/// no account, it leaves every account's counter as it was, and no
/// increment of an account's counter, by whomever, takes it back.
pub proof fn lemma_inc_is_seen_by_all(s: State, by: i32, calls: Seq<Call>)
    requires
        fits_i32(s.value + by),
        forall|i: int| 0 <= i < calls.len() ==> (#[trigger] calls[i]) is IncMine,
    ensures
        s.inc(by).get() == s.get() + by,
        s.inc(by).mine == s.mine,
        s.inc(by).run(calls).get() == s.get() + by,
    decreases calls.len(),
{
    if calls.len() > 0 {
        lemma_inc_is_seen_by_all(s, by, calls.drop_last());
    }
}

/// A call that fails changes nothing.
pub proof fn lemma_failed_call_changes_nothing(s: State, id: Seq<u8>, by: i32)
    ensures
        s.inc_result(by) is Err ==> s.inc(by) == s,
        s.inc_mine_result(id, by) is Err ==> s.inc_mine(id, by) == s,
{
}

/// A successful increment of an account's counter makes or updates the
/// entry of that account and no other: the accounts with an entry are those
/// from before and the caller, so their number grows by one for a caller
/// without an entry and not at all for one with an entry.
pub proof fn lemma_inc_mine_touches_one_entry(s: State, id: Seq<u8>, by: i32)
    requires
        s.mine.dom().finite(),
        s.inc_mine_result(id, by) is Ok,
    ensures
        s.inc_mine(id, by).mine.dom() == s.mine.dom().insert(id),
        s.inc_mine(id, by).mine.len() == s.mine.len() + (if s.mine.contains_key(id) {
            0int
        } else {
            1int
        }),
{
}

/// At construction the store is one that calls can have built.
pub proof fn lemma_initial_is_well_formed(init_value: i32)
    ensures
        State::initial(init_value).well_formed(),
{
}

/// Every call by an account of 32 bytes keeps the store one that calls can
/// have built.
pub proof fn lemma_run_keeps_well_formed(s: State, calls: Seq<Call>)
    requires
        s.well_formed(),
        forall|i: int|
            0 <= i < calls.len() ==> ((#[trigger] calls[i]) matches Call::IncMine { caller, .. }
                ==> caller.len() == 32),
    ensures
        s.run(calls).well_formed(),
    decreases calls.len(),
{
    if calls.len() > 0 {
        lemma_run_keeps_well_formed(s, calls.drop_last());
    }
}

} // verus!
