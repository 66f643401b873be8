use sobaken::State;
use sobaken::handle_event;
use sobaken::chain::{chain_steps, run_step, StepKind};
use sobaken::machine::{dispatch, duration_of, wait_minutes, Command, DurationChoice, Event, Notice};
use sobaken::store::Store;

fn button(payload: &str) -> Event {
    Event::Button(payload.to_string())
}

fn text(content: &str) -> Event {
    Event::Text(content.to_string())
}

#[test]
fn fresh_chat_is_idle() {
    let store = Store::new();
    assert_eq!(store.get(42), State::Start);
    assert_eq!(store.get(-7), State::Start);
}

#[test]
fn full_cycle_returns_to_idle_with_sends_in_order() {
    let mut store = Store::new();
    let chat = 1i64;

    let r1 = handle_event(&mut store, chat, &Event::Command(Command::Start));
    assert_eq!(store.get(chat), State::Dropoff);
    let sent1: Vec<Notice> = r1.sends.iter().map(|o| o.notice).collect();
    assert_eq!(sent1, vec![Notice::Welcome, Notice::Task]);

    let r2 = handle_event(&mut store, chat, &button("dropoff"));
    assert_eq!(store.get(chat), State::DropoffTime);
    assert!(r2.ack);
    let sent2: Vec<Notice> = r2.sends.iter().map(|o| o.notice).collect();
    assert_eq!(sent2, vec![Notice::When]);

    let r3 = handle_event(&mut store, chat, &button("10"));
    assert_eq!(store.get(chat), State::Walk);
    assert!(r3.start_chain);

    let mut notices: Vec<Notice> = r3.sends.iter().map(|o| o.notice).collect();
    let steps = chain_steps();
    assert_eq!(steps.len(), 3);
    for step in &steps {
        let ns = run_step(&mut store, chat, step.kind);
        notices.extend(ns);
    }

    assert_eq!(store.get(chat), State::Start);
    assert_eq!(
        notices,
        vec![
            Notice::Confirm(10),
            Notice::Reminder,
            Notice::WalkPhoto,
            Notice::PickupDone,
            Notice::Welcome,
            Notice::Task,
        ]
    );
}

#[test]
fn chain_has_the_fixed_delays() {
    let steps = chain_steps();
    assert_eq!(steps.len(), 3);
    assert_eq!(steps[0].delay_secs, 60);
    assert_eq!(steps[0].kind, StepKind::Reminder);
    assert_eq!(steps[1].delay_secs, 300);
    assert_eq!(steps[1].kind, StepKind::WalkPhoto);
    assert_eq!(steps[2].delay_secs, 300);
    assert_eq!(steps[2].kind, StepKind::End);
}

#[test]
fn help_answers_and_keeps_state_everywhere() {
    let states = [
        State::Start,
        State::Dropoff,
        State::DropoffTime,
        State::Walk,
        State::Pickup,
    ];
    for (i, st) in states.iter().enumerate() {
        let chat = i as i64;
        let mut store = Store::new();
        store.set(chat, *st);
        let r = handle_event(&mut store, chat, &Event::Command(Command::Help));
        assert_eq!(store.get(chat), *st);
        assert_eq!(r.sends.len(), 1);
        assert_eq!(r.sends[0].notice, Notice::CommandList);
        assert_eq!(r.sends[0].delay_secs, 0);
        assert!(!r.ack);
        assert!(!r.start_chain);
    }
}

#[test]
fn invalid_duration_payload_is_ignored() {
    let mut store = Store::new();
    store.set(3, State::DropoffTime);
    let r = handle_event(&mut store, 3, &button("99"));
    assert_eq!(store.get(3), State::DropoffTime);
    assert!(r.sends.is_empty());
    assert!(!r.ack);
    assert!(!r.start_chain);
}

#[test]
fn long_duration_choice_confirms_sixty_minutes() {
    let mut store = Store::new();
    store.set(3, State::DropoffTime);
    let r = handle_event(&mut store, 3, &button("60"));
    assert_eq!(store.get(3), State::Walk);
    assert!(r.start_chain);
    let sent: Vec<Notice> = r.sends.iter().map(|o| o.notice).collect();
    assert_eq!(sent, vec![Notice::Confirm(60)]);
}

#[test]
fn button_in_wrong_state_changes_nothing() {
    // The drop-off button while already choosing a duration.
    let mut store = Store::new();
    store.set(8, State::DropoffTime);
    let r = handle_event(&mut store, 8, &button("dropoff"));
    assert_eq!(store.get(8), State::DropoffTime);
    assert!(r.sends.is_empty());
    assert!(!r.ack);

    // A duration button while walking.
    store.set(8, State::Walk);
    let r = handle_event(&mut store, 8, &button("10"));
    assert_eq!(store.get(8), State::Walk);
    assert!(r.sends.is_empty());

    // Any button while idle.
    store.set(8, State::Start);
    let r = handle_event(&mut store, 8, &button("dropoff"));
    assert_eq!(store.get(8), State::Start);
    assert!(r.sends.is_empty());
}

#[test]
fn stray_text_routes_to_help() {
    let mut store = Store::new();
    store.set(9, State::Pickup);
    let r = handle_event(&mut store, 9, &text("когда забирать?"));
    assert_eq!(store.get(9), State::Pickup);
    let sent: Vec<Notice> = r.sends.iter().map(|o| o.notice).collect();
    assert_eq!(sent, vec![Notice::CommandList]);
}

#[test]
fn status_phrase_while_walking_sends_delayed_rest_photo() {
    let mut store = Store::new();
    store.set(4, State::Walk);
    let r = handle_event(&mut store, 4, &text("Как там мой собакен?"));
    assert_eq!(store.get(4), State::Walk);
    assert_eq!(r.sends.len(), 2);
    assert_eq!(r.sends[0].notice, Notice::OneMoment);
    assert_eq!(r.sends[0].delay_secs, 0);
    assert_eq!(r.sends[1].notice, Notice::RestPhoto);
    assert_eq!(r.sends[1].delay_secs, 10);
}

#[test]
fn status_phrase_outside_walking_routes_to_help() {
    let mut store = Store::new();
    store.set(4, State::Dropoff);
    let r = handle_event(&mut store, 4, &text("Как там мой собакен?"));
    assert_eq!(store.get(4), State::Dropoff);
    let sent: Vec<Notice> = r.sends.iter().map(|o| o.notice).collect();
    assert_eq!(sent, vec![Notice::CommandList]);
}

#[test]
fn start_command_outside_idle_is_dropped() {
    let mut store = Store::new();
    store.set(2, State::Walk);
    let r = handle_event(&mut store, 2, &Event::Command(Command::Start));
    assert_eq!(store.get(2), State::Walk);
    assert!(r.sends.is_empty());
}

#[test]
fn dispatch_is_pure_decision() {
    let r = dispatch(State::Start, &Event::Command(Command::Start));
    assert_eq!(r.new_state, State::Dropoff);
    let again = dispatch(State::Start, &Event::Command(Command::Start));
    assert_eq!(again.new_state, State::Dropoff);
    assert_eq!(
        r.sends.iter().map(|o| o.notice).collect::<Vec<_>>(),
        again.sends.iter().map(|o| o.notice).collect::<Vec<_>>()
    );
}

#[test]
fn duration_choices_map_to_fixed_waits() {
    assert_eq!(duration_of(&"10".to_string()), Some(DurationChoice::Short));
    assert_eq!(duration_of(&"60".to_string()), Some(DurationChoice::Long));
    assert_eq!(duration_of(&"99".to_string()), None);
    assert_eq!(duration_of(&"".to_string()), None);
    assert_eq!(wait_minutes(DurationChoice::Short), 10);
    assert_eq!(wait_minutes(DurationChoice::Long), 60);
}

#[test]
fn hundred_chats_complete_independently() {
    let mut store = Store::new();
    let chats: Vec<i64> = (0..100).collect();

    for &chat in &chats {
        handle_event(&mut store, chat, &Event::Command(Command::Start));
        handle_event(&mut store, chat, &button("dropoff"));
        let r = handle_event(&mut store, chat, &button(if chat % 2 == 0 { "10" } else { "60" }));
        assert!(r.start_chain);
        assert_eq!(store.get(chat), State::Walk);
    }

    // Interleave the three chain steps across all chats, phase by phase, and
    // check no chat's progress leaks into another's entry.
    let steps = chain_steps();
    for (phase, step) in steps.iter().enumerate() {
        for &chat in &chats {
            run_step(&mut store, chat, step.kind);
        }
        let expected = match phase {
            0 => State::Walk,
            1 => State::Pickup,
            _ => State::Start,
        };
        for &chat in &chats {
            assert_eq!(store.get(chat), expected);
        }
    }

    for &chat in &chats {
        assert_eq!(store.get(chat), State::Start);
    }
    // A chat that never took part is still idle.
    assert_eq!(store.get(1000), State::Start);
}
