//! The conversation store: one state value per chat identifier. A chat that
//! was never written sits implicitly in the idle state.

use vstd::prelude::*;
use std::collections::HashMap;
use crate::State;

verus! {

broadcast use vstd::std_specs::hash::group_hash_axioms;

/// Keyed store of every conversation's current state. Absence of an entry is
/// the same as holding `State::Start`.
pub struct Store {
    map: HashMap<i64, State>,
}

impl View for Store {
    type V = Map<i64, State>;

    closed spec fn view(&self) -> Map<i64, State> {
        self.map@
    }
}

/// The state a mapping answers for a chat: the entry if there is one, idle
/// otherwise.
pub open spec fn lookup(m: Map<i64, State>, chat: i64) -> State {
    if m.contains_key(chat) {
        m[chat]
    } else {
        State::Start
    }
}

impl Store {
    /// The state the store answers for a chat: the entry if there is one,
    /// idle otherwise.
    pub open spec fn state_of(&self, chat: i64) -> State {
        lookup(self@, chat)
    }

    /// An empty store: every chat is idle.
    pub fn new() -> (s: Store)
        ensures
            s@ == Map::<i64, State>::empty(),
    {
        Store { map: HashMap::new() }
    }

    /// Read one chat's state; a chat never seen is idle.
    pub fn get(&self, chat: i64) -> (st: State)
        ensures
            st == self.state_of(chat),
    {
        match self.map.get(&chat) {
            Some(st) => *st,
            None => State::Start,
        }
    }

    /// Write one chat's state, last write wins; no other chat's entry moves.
    pub fn set(&mut self, chat: i64, st: State)
        ensures
            final(self)@ == old(self)@.insert(chat, st),
    {
        self.map.insert(chat, st);
    }
}

} // verus!
