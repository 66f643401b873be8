//! The delayed notification chain: the fixed sequence of timed steps that a
//! confirmed drop-off schedules, and what each step does to the conversation
//! when its delay elapses.

use vstd::prelude::*;
use crate::State;
use crate::machine::Notice;
use crate::store::Store;

verus! {

/// Seconds from the confirmation to the drop-off reminder.
pub const DELAY_DROPOFF: u64 = 60;

/// Seconds from the reminder to the walk photo.
pub const DELAY_WALK: u64 = 300;

/// Seconds from the walk photo to the completion message.
pub const DELAY_PICKUP: u64 = 300;

/// What a chain step does once its delay has elapsed.
#[derive(Clone, Copy, Debug, PartialEq, Eq, Structural)]
pub enum StepKind {
    /// Remind that the dog was dropped off and offer the status keyboard.
    Reminder,
    /// Send a photo from the walk rotation.
    WalkPhoto,
    /// Close the cycle: completion text, then the welcome is shown again.
    End,
}

/// One timed step: wait `delay_secs`, then perform `kind`.
#[derive(Clone, Copy, Debug, PartialEq, Eq, Structural)]
pub struct ChainStep {
    pub delay_secs: u64,
    pub kind: StepKind,
}

/// The one chain this lifecycle ever schedules: reminder, walk photo,
/// completion, each after its fixed delay.
pub open spec fn spec_chain() -> Seq<ChainStep> {
    seq![
        ChainStep { delay_secs: DELAY_DROPOFF, kind: StepKind::Reminder },
        ChainStep { delay_secs: DELAY_WALK, kind: StepKind::WalkPhoto },
        ChainStep { delay_secs: DELAY_PICKUP, kind: StepKind::End },
    ]
}

/// The state a conversation holds after a step ran.
pub open spec fn step_state(kind: StepKind) -> State {
    match kind {
        StepKind::Reminder => State::Walk,
        StepKind::WalkPhoto => State::Pickup,
        StepKind::End => State::Start,
    }
}

/// The notifications a step sends, in order. The closing step re-emits the
/// idle welcome after the completion text, without leaving the idle state.
pub open spec fn step_notices(kind: StepKind) -> Seq<Notice> {
    match kind {
        StepKind::Reminder => seq![Notice::Reminder],
        StepKind::WalkPhoto => seq![Notice::WalkPhoto],
        StepKind::End => seq![Notice::PickupDone, Notice::Welcome, Notice::Task],
    }
}

/// Build the chain that a confirmed drop-off hands to the scheduler.
pub fn chain_steps() -> (steps: Vec<ChainStep>)
    ensures
        steps@ == spec_chain(),
{
    let steps = vec![
        ChainStep { delay_secs: DELAY_DROPOFF, kind: StepKind::Reminder },
        ChainStep { delay_secs: DELAY_WALK, kind: StepKind::WalkPhoto },
        ChainStep { delay_secs: DELAY_PICKUP, kind: StepKind::End },
    ];
    proof {
        assert(steps@ =~= spec_chain());
    }
    steps
}

/// Run the store side of one elapsed chain step for one chat: the chat moves
/// to the step's state, every other chat keeps its entry, and the returned
/// notifications are exactly the step's, in order. The caller sends them and
/// owns the waiting.
pub fn run_step(store: &mut Store, chat: i64, kind: StepKind) -> (notices: Vec<Notice>)
    ensures
        final(store)@ == old(store)@.insert(chat, step_state(kind)),
        notices@ == step_notices(kind),
{
    let notices = match kind {
        StepKind::Reminder => {
            store.set(chat, State::Walk);
            vec![Notice::Reminder]
        },
        StepKind::WalkPhoto => {
            store.set(chat, State::Pickup);
            vec![Notice::WalkPhoto]
        },
        StepKind::End => {
            store.set(chat, State::Start);
            vec![Notice::PickupDone, Notice::Welcome, Notice::Task]
        },
    };
    proof {
        assert(notices@ =~= step_notices(kind));
    }
    notices
}

} // verus!
