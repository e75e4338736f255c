//! What holds of the commands and of the store, for every token and in every
//! state.

use vstd::prelude::*;
use crate::commands::{clear_answer, get_answer, set_answer};
use crate::error::{ErrorKind, StoreFault};
use crate::store::StoreState;

verus! {

/// When the vault reports that it holds no token, a read answers with
/// nothing and does not fail, whatever message the vault gave.
pub proof fn law_absence_reads_as_nothing(fault: StoreFault)
    requires
        fault.kind == ErrorKind::NotFound,
    ensures
        get_answer(Err(fault)) == Ok::<Option<Seq<char>>, Seq<char>>(None),
{
}

/// When the vault reports that it held no token, clearing succeeds, whatever
/// message the vault gave.
pub proof fn law_absence_clears_as_success(fault: StoreFault)
    requires
        fault.kind == ErrorKind::NotFound,
    ensures
        clear_answer(Err(fault)) == Ok::<(), Seq<char>>(()),
{
}

/// Every failure of the vault is answered with the vault's message when
/// storing; when reading or clearing, every failure but an absent token is.
pub proof fn law_failures_surface_as_messages(fault: StoreFault)
    ensures
        set_answer(Err(fault)) == Err::<(), Seq<char>>(fault.message),
        fault.kind != ErrorKind::NotFound ==> get_answer(Err(fault)) == Err::<
            Option<Seq<char>>,
            Seq<char>,
        >(fault.message),
        fault.kind != ErrorKind::NotFound ==> clear_answer(Err(fault)) == Err::<(), Seq<char>>(
            fault.message,
        ),
{
}

/// A read of a store that holds no token answers with nothing and does not
/// fail.
pub proof fn law_empty_store_reads_nothing(state: StoreState)
    requires
        state.token is None,
    ensures
        state.answer_to_get() == Ok::<Option<Seq<char>>, Seq<char>>(None),
{
}

/// Storing a token succeeds, and a read that follows returns that token. This
/// holds of the empty token too.
pub proof fn law_get_after_set(state: StoreState, token: Seq<char>)
    ensures
        state.answer_to_set() is Ok,
        state.set(token).answer_to_get() == Ok::<Option<Seq<char>>, Seq<char>>(Some(token)),
{
}

/// Of two tokens stored one after the other, a read returns the second.
pub proof fn law_set_overwrites(state: StoreState, first: Seq<char>, second: Seq<char>)
    ensures
        state.answer_to_set() is Ok,
        state.set(first).answer_to_set() is Ok,
        state.set(first).set(second).answer_to_get() == Ok::<Option<Seq<char>>, Seq<char>>(
            Some(second),
        ),
{
}

/// Clearing when no token is held succeeds.
pub proof fn law_clear_of_nothing_succeeds(state: StoreState)
    requires
        state.token is None,
    ensures
        state.answer_to_clear() == Ok::<(), Seq<char>>(()),
{
}

/// After a token was stored and then cleared, a read returns nothing.
pub proof fn law_get_after_clear(state: StoreState, token: Seq<char>)
    ensures
        state.answer_to_set() is Ok,
        state.set(token).answer_to_clear() is Ok,
        state.set(token).clear().answer_to_get() == Ok::<Option<Seq<char>>, Seq<char>>(None),
{
}

/// Clearing twice in a row succeeds both times, in every state, and the
/// second clearing changes nothing.
pub proof fn law_clear_twice_succeeds(state: StoreState)
    ensures
        state.answer_to_clear() is Ok,
        state.clear().answer_to_clear() is Ok,
        state.clear().clear() == state.clear(),
{
}

} // verus!
