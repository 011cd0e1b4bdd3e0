//! Where the state of each conversation is kept between updates.
//!
//! A conversation is known by the identifier of its chat. There is exactly
//! one state for each chat at any time: a chat of which nothing is stored is
//! at the start.

use std::collections::HashMap;
use vstd::prelude::*;
use crate::state::{State, StateView};

verus! {

/// The states of the conversations, by chat.
#[derive(Debug)]
pub struct Storage {
    states: HashMap<i64, State>,
}

/// The state of the chat `chat_id` where `stored` is what is stored.
pub open spec fn state_in(stored: Map<i64, StateView>, chat_id: i64) -> StateView {
    if stored.dom().contains(chat_id) {
        stored[chat_id]
    } else {
        StateView::Start
    }
}

impl View for Storage {
    type V = Map<i64, StateView>;

    closed spec fn view(&self) -> Map<i64, StateView> {
        Map::new(|chat_id: i64| self.states@.dom().contains(chat_id), |chat_id: i64| self.states@[chat_id]@)
    }
}

impl Storage {
    /// A storage in which nothing is stored.
    pub fn new() -> (s: Storage)
        ensures
            s@ == Map::<i64, StateView>::empty(),
    {
        let s = Storage { states: HashMap::new() };
        assert(s@ =~= Map::<i64, StateView>::empty());
        s
    }

    /// The state of the chat `chat_id`.
    pub fn get(&self, chat_id: i64) -> (state: State)
        ensures
            state@ == state_in(self@, chat_id),
    {
        broadcast use vstd::std_specs::hash::group_hash_axioms;

        match self.states.get(&chat_id) {
            Some(state) => state.clone(),
            None => State::default(),
        }
    }

    /// Stores `state` as the state of the chat `chat_id`, in place of what
    /// was stored for that chat. The other chats keep their states.
    pub fn set(&mut self, chat_id: i64, state: State)
        ensures
            final(self)@ == old(self)@.insert(chat_id, state@),
    {
        broadcast use vstd::std_specs::hash::group_hash_axioms;

        self.states.insert(chat_id, state);
        assert(self@ =~= old(self)@.insert(chat_id, state@));
    }
}

/// Reading a chat gives what was last stored for it, and storing for one
/// chat changes no other.
pub proof fn lemma_set_then_get(
    stored: Map<i64, StateView>,
    chat_id: i64,
    state: StateView,
    other: i64,
)
    ensures
        state_in(stored.insert(chat_id, state), chat_id) == state,
        other != chat_id ==> state_in(stored.insert(chat_id, state), other) == state_in(
            stored,
            other,
        ),
{
}

} // verus!
