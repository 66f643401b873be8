//! The pure decision core: given the current conversation state and one
//! inbound event, which reply goes out, which state comes next, and whether
//! the delayed notification chain starts.

use vstd::prelude::*;
use vstd::string::*;
use crate::State;

verus! {

/// A structured command, already parsed out of the raw input by the caller.
#[derive(Clone, Copy, Debug, PartialEq, Eq, Structural)]
pub enum Command {
    Help,
    Start,
}

/// One inbound event for one chat: a command, free text, or the payload of a
/// button press.
#[derive(Debug)]
pub enum Event {
    Command(Command),
    Text(String),
    Button(String),
}

/// The mathematical shape of an [`Event`]: texts as character sequences.
pub enum EventView {
    Command(Command),
    Text(Seq<char>),
    Button(Seq<char>),
}

impl View for Event {
    type V = EventView;

    open spec fn view(&self) -> EventView {
        match self {
            Event::Command(c) => EventView::Command(*c),
            Event::Text(t) => EventView::Text(t@),
            Event::Button(p) => EventView::Button(p@),
        }
    }
}

/// An abstract notification kind; the catalog turns it into a concrete
/// payload. `Confirm` carries the chosen wait in minutes.
#[derive(Clone, Copy, Debug, PartialEq, Eq, Structural)]
pub enum Notice {
    Welcome,
    Task,
    CommandList,
    When,
    Confirm(u64),
    OneMoment,
    RestPhoto,
    Reminder,
    WalkPhoto,
    PickupDone,
}

/// One outbound notification together with the seconds to wait before
/// sending it.
#[derive(Clone, Copy, Debug, PartialEq, Eq, Structural)]
pub struct Outgoing {
    pub delay_secs: u64,
    pub notice: Notice,
}

/// Everything the machine decides for one event.
pub struct Response {
    /// The state the conversation moves to (possibly unchanged).
    pub new_state: State,
    /// Whether the button press that caused this event is acknowledged.
    pub ack: bool,
    /// The notifications to send, in order.
    pub sends: Vec<Outgoing>,
    /// Whether the delayed notification chain starts now.
    pub start_chain: bool,
}

/// The mathematical shape of a [`Response`].
pub struct ResponseView {
    pub new_state: State,
    pub ack: bool,
    pub sends: Seq<Outgoing>,
    pub start_chain: bool,
}

impl View for Response {
    type V = ResponseView;

    open spec fn view(&self) -> ResponseView {
        ResponseView {
            new_state: self.new_state,
            ack: self.ack,
            sends: self.sends@,
            start_chain: self.start_chain,
        }
    }
}

/// Seconds between the status question and the photo that answers it.
pub const DELAY_CHECK_DELAY: u64 = 10;

/// The free-text phrase that asks how the dog is doing.
pub open spec fn status_text() -> Seq<char> {
    "Как там мой собакен?"@
}

/// The payload of the drop-off button.
pub open spec fn dropoff_payload() -> Seq<char> {
    "dropoff"@
}

/// The payload of the short-wait duration button.
pub open spec fn short_payload() -> Seq<char> {
    "10"@
}

/// The payload of the long-wait duration button.
pub open spec fn long_payload() -> Seq<char> {
    "60"@
}

/// One of the waits a drop-off can be booked for; chosen once per cycle.
#[derive(Clone, Copy, Debug, PartialEq, Eq, Structural)]
pub enum DurationChoice {
    Short,
    Long,
}

/// The fixed wait, in minutes, that a choice stands for.
pub open spec fn spec_wait_minutes(c: DurationChoice) -> u64 {
    match c {
        DurationChoice::Short => 10,
        DurationChoice::Long => 60,
    }
}

/// Which duration choice a button payload names, if any.
pub open spec fn spec_duration_of(p: Seq<char>) -> Option<DurationChoice> {
    if p == short_payload() {
        Some(DurationChoice::Short)
    } else if p == long_payload() {
        Some(DurationChoice::Long)
    } else {
        None
    }
}

/// The wait a choice stands for.
pub fn wait_minutes(c: DurationChoice) -> (m: u64)
    ensures
        m == spec_wait_minutes(c),
{
    match c {
        DurationChoice::Short => 10,
        DurationChoice::Long => 60,
    }
}

/// Parse a duration button payload.
pub fn duration_of(payload: &String) -> (c: Option<DurationChoice>)
    ensures
        c == spec_duration_of(payload@),
{
    let short = String::from_str("10");
    let long = String::from_str("60");
    if *payload == short {
        Some(DurationChoice::Short)
    } else if *payload == long {
        Some(DurationChoice::Long)
    } else {
        None
    }
}

/// A response that sends one notification at once and leaves everything else
/// alone.
pub open spec fn reply(s: State, n: Notice) -> ResponseView {
    ResponseView {
        new_state: s,
        ack: false,
        sends: seq![Outgoing { delay_secs: 0, notice: n }],
        start_chain: false,
    }
}

/// A response that does nothing at all: the event is silently dropped.
pub open spec fn silent(s: State) -> ResponseView {
    ResponseView { new_state: s, ack: false, sends: Seq::empty(), start_chain: false }
}

/// The full decision table: one row per (state, event) pair.
///
/// - A `Help` command answers with the command list in every state and never
///   moves the state.
/// - A `Start` command opens a drop-off only from the idle state; elsewhere
///   it is dropped.
/// - Free text in `Walk` that matches the status phrase answers with a
///   delayed photo from the resting rotation; all other free text, in any
///   state, falls through to the command list.
/// - The drop-off button is matched only in `Dropoff`; a recognized duration
///   button only in `DropoffTime`, where it confirms the choice, moves to
///   `Walk` and starts the chain. Every other button press is dropped
///   without a reply and without an acknowledgment.
pub open spec fn spec_dispatch(s: State, ev: EventView) -> ResponseView {
    match ev {
        EventView::Command(Command::Help) => reply(s, Notice::CommandList),
        EventView::Command(Command::Start) => if s is Start {
            ResponseView {
                new_state: State::Dropoff,
                ack: false,
                sends: seq![
                    Outgoing { delay_secs: 0, notice: Notice::Welcome },
                    Outgoing { delay_secs: 0, notice: Notice::Task },
                ],
                start_chain: false,
            }
        } else {
            silent(s)
        },
        EventView::Text(t) => if s is Walk && t == status_text() {
            ResponseView {
                new_state: s,
                ack: false,
                sends: seq![
                    Outgoing { delay_secs: 0, notice: Notice::OneMoment },
                    Outgoing { delay_secs: DELAY_CHECK_DELAY, notice: Notice::RestPhoto },
                ],
                start_chain: false,
            }
        } else {
            reply(s, Notice::CommandList)
        },
        EventView::Button(p) => if s is Dropoff && p == dropoff_payload() {
            ResponseView {
                new_state: State::DropoffTime,
                ack: true,
                sends: seq![Outgoing { delay_secs: 0, notice: Notice::When }],
                start_chain: false,
            }
        } else if s is DropoffTime && spec_duration_of(p) is Some {
            ResponseView {
                new_state: State::Walk,
                ack: true,
                sends: seq![
                    Outgoing {
                        delay_secs: 0,
                        notice: Notice::Confirm(spec_wait_minutes(spec_duration_of(p)->Some_0)),
                    },
                ],
                start_chain: true,
            }
        } else {
            silent(s)
        },
    }
}

/// Decide one event against the current state. The result is exactly the row
/// of the decision table [`spec_dispatch`] for this pair.
pub fn dispatch(s: State, event: &Event) -> (r: Response)
    ensures
        r@ == spec_dispatch(s, event@),
{
    let r = match event {
        Event::Command(Command::Help) => Response {
            new_state: s,
            ack: false,
            sends: vec![Outgoing { delay_secs: 0, notice: Notice::CommandList }],
            start_chain: false,
        },
        Event::Command(Command::Start) => {
            if s == State::Start {
                Response {
                    new_state: State::Dropoff,
                    ack: false,
                    sends: vec![
                        Outgoing { delay_secs: 0, notice: Notice::Welcome },
                        Outgoing { delay_secs: 0, notice: Notice::Task },
                    ],
                    start_chain: false,
                }
            } else {
                Response { new_state: s, ack: false, sends: Vec::new(), start_chain: false }
            }
        },
        Event::Text(t) => {
            let status = String::from_str("Как там мой собакен?");
            if s == State::Walk && *t == status {
                Response {
                    new_state: s,
                    ack: false,
                    sends: vec![
                        Outgoing { delay_secs: 0, notice: Notice::OneMoment },
                        Outgoing { delay_secs: DELAY_CHECK_DELAY, notice: Notice::RestPhoto },
                    ],
                    start_chain: false,
                }
            } else {
                Response {
                    new_state: s,
                    ack: false,
                    sends: vec![Outgoing { delay_secs: 0, notice: Notice::CommandList }],
                    start_chain: false,
                }
            }
        },
        Event::Button(p) => {
            let dropoff = String::from_str("dropoff");
            let choice = duration_of(p);
            if s == State::Dropoff && *p == dropoff {
                Response {
                    new_state: State::DropoffTime,
                    ack: true,
                    sends: vec![Outgoing { delay_secs: 0, notice: Notice::When }],
                    start_chain: false,
                }
            } else if s == State::DropoffTime && choice.is_some() {
                let minutes = wait_minutes(choice.unwrap());
                Response {
                    new_state: State::Walk,
                    ack: true,
                    sends: vec![Outgoing { delay_secs: 0, notice: Notice::Confirm(minutes) }],
                    start_chain: true,
                }
            } else {
                Response { new_state: s, ack: false, sends: Vec::new(), start_chain: false }
            }
        },
    };
    proof {
        assert(r@.sends =~= spec_dispatch(s, event@).sends);
    }
    r
}

} // verus!
