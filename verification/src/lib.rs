//! Per-chat conversation lifecycle for a dog day-care bot: a pure state
//! machine over inbound events, a keyed conversation store, a chain of
//! delayed notification steps, and a catalog that renders each notification.

pub mod catalog;
pub mod chain;
pub mod laws;
pub mod machine;
pub mod store;

use vstd::prelude::*;

use crate::machine::{dispatch, spec_dispatch, Event, Response};
use crate::store::Store;

verus! {

/// The lifecycle position of one conversation. `Start` is the idle state:
/// a chat that was never seen sits there implicitly.
#[derive(Clone, Copy, Debug, PartialEq, Eq, Structural, Default)]
pub enum State {
    #[default]
    Start,
    Dropoff,
    DropoffTime,
    Walk,
    Pickup,
}

/// Route one inbound event for one chat: look the chat's state up, decide by
/// the table of [`spec_dispatch`], and write the (possibly unchanged) new
/// state back. The returned response still carries the sends and the chain
/// flag for the caller to act on.
pub fn handle_event(store: &mut Store, chat: i64, event: &Event) -> (r: Response)
    ensures
        r@ == spec_dispatch(old(store).state_of(chat), event@),
        final(store)@ == old(store)@.insert(chat, r@.new_state),
{
    let current = store.get(chat);
    let r = dispatch(current, event);
    store.set(chat, r.new_state);
    r
}

} // verus!
