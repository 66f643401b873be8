//! The behavioural laws of the lifecycle, each proved against the decision
//! table and the chain specifications that the executable functions are
//! verified against.

use vstd::prelude::*;
use crate::State;
use crate::machine::{
    spec_dispatch, reply, silent, status_text, dropoff_payload, short_payload, long_payload,
    Command, EventView, Notice, Outgoing,
};
use crate::chain::{spec_chain, step_state, step_notices};
use crate::store::lookup;

verus! {

/// A chat that was never written sits in the idle state.
pub proof fn lemma_unseen_chat_is_idle(m: Map<i64, State>, chat: i64)
    requires
        !m.dom().contains(chat),
    ensures
        lookup(m, chat) == State::Start,
{
}

/// The `help` command answers with the command list and never moves the
/// state, whatever the state is; it neither acknowledges nor starts a chain.
pub proof fn lemma_help_never_moves_state(s: State)
    ensures
        spec_dispatch(s, EventView::Command(Command::Help)) == reply(s, Notice::CommandList),
        spec_dispatch(s, EventView::Command(Command::Help)).new_state == s,
{
}

/// A duration button press whose payload is not one of the recognized
/// choices leaves the conversation awaiting a duration and produces no
/// outbound send, no acknowledgment and no chain.
pub proof fn lemma_invalid_duration_ignored(p: Seq<char>)
    requires
        p != short_payload(),
        p != long_payload(),
    ensures
        spec_dispatch(State::DropoffTime, EventView::Button(p)) == silent(State::DropoffTime),
{
}

/// A button press that no row of the table matches in the current state —
/// wherever it would have been valid — changes nothing and sends nothing.
pub proof fn lemma_wrong_state_button_ignored(s: State, p: Seq<char>)
    requires
        !(s is Dropoff && p == dropoff_payload()),
        !(s is DropoffTime && (p == short_payload() || p == long_payload())),
    ensures
        spec_dispatch(s, EventView::Button(p)) == silent(s),
{
}

/// A text event that no row matches — anything but the status phrase while
/// walking — falls through to the command list and changes nothing.
pub proof fn lemma_stray_text_routes_to_help(s: State, t: Seq<char>)
    requires
        !(s is Walk && t == status_text()),
    ensures
        spec_dispatch(s, EventView::Text(t)) == reply(s, Notice::CommandList),
{
}

/// Event-driven transitions only move forward along the lifecycle graph or
/// stand still: idle opens a drop-off, the drop-off button asks for a
/// duration, a recognized duration starts the walk. No event moves a
/// conversation anywhere else.
pub proof fn lemma_events_follow_lifecycle(s: State, ev: EventView)
    ensures
        ({
            let n = spec_dispatch(s, ev).new_state;
            ||| n == s
            ||| (s is Start && n is Dropoff)
            ||| (s is Dropoff && n is DropoffTime)
            ||| (s is DropoffTime && n is Walk)
        }),
{
}

/// Writing one chat's state never moves any other chat's: conversations are
/// isolated in the store.
pub proof fn lemma_chats_isolated(m: Map<i64, State>, a: i64, st: State, b: i64)
    requires
        a != b,
    ensures
        lookup(m.insert(a, st), b) == lookup(m, b),
        lookup(m.insert(a, st), a) == st,
{
}

/// The notifications of one full cycle after the duration choice, in order:
/// the confirmation, then the three chain steps' sends.
pub open spec fn cycle_notices(minutes: u64) -> Seq<Notice> {
    seq![
        Notice::Confirm(minutes),
        Notice::Reminder,
        Notice::WalkPhoto,
        Notice::PickupDone,
        Notice::Welcome,
        Notice::Task,
    ]
}

/// One full cycle: from idle, the start command, the drop-off button and a
/// recognized duration choice walk the lifecycle forward and start the
/// chain; the three chain steps then return the conversation to idle. From
/// the choice on, the outbound notifications are exactly the confirmation,
/// the reminder, the walk photo and the completion text followed by the
/// re-issued welcome, in that order.
pub proof fn lemma_full_cycle(p: Seq<char>)
    requires
        p == short_payload() || p == long_payload(),
    ensures
        ({
            let minutes: u64 = if p == short_payload() { 10 } else { 60 };
            let d1 = spec_dispatch(State::Start, EventView::Command(Command::Start));
            let d2 = spec_dispatch(d1.new_state, EventView::Button(dropoff_payload()));
            let d3 = spec_dispatch(d2.new_state, EventView::Button(p));
            &&& d1.new_state == State::Dropoff
            &&& d1.sends.map_values(|o: Outgoing| o.notice) == seq![Notice::Welcome, Notice::Task]
            &&& d2.new_state == State::DropoffTime
            &&& d2.sends.map_values(|o: Outgoing| o.notice) == seq![Notice::When]
            &&& d3.new_state == State::Walk
            &&& d3.start_chain
            &&& spec_chain().len() == 3
            &&& step_state(spec_chain()[0].kind) == State::Walk
            &&& step_state(spec_chain()[1].kind) == State::Pickup
            &&& step_state(spec_chain()[2].kind) == State::Start
            &&& d3.sends.map_values(|o: Outgoing| o.notice) + step_notices(spec_chain()[0].kind)
                + step_notices(spec_chain()[1].kind) + step_notices(spec_chain()[2].kind)
                == cycle_notices(minutes)
        }),
{
    let minutes: u64 = if p == short_payload() { 10 } else { 60 };
    let d1 = spec_dispatch(State::Start, EventView::Command(Command::Start));
    let d2 = spec_dispatch(d1.new_state, EventView::Button(dropoff_payload()));
    let d3 = spec_dispatch(d2.new_state, EventView::Button(p));
    assert(d1.sends.map_values(|o: Outgoing| o.notice) =~= seq![Notice::Welcome, Notice::Task]);
    assert(d2.sends.map_values(|o: Outgoing| o.notice) =~= seq![Notice::When]);
    assert(d3.sends.map_values(|o: Outgoing| o.notice)
        + step_notices(spec_chain()[0].kind) + step_notices(spec_chain()[1].kind)
        + step_notices(spec_chain()[2].kind) =~= cycle_notices(minutes));
}

} // verus!
