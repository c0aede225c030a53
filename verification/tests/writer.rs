use nostr_plus::command::ClientCommand;
use nostr_plus::types::{Outgoing, RelayOk, Request, SignedEvent};
use nostr_plus::writer::{Correlator, WriterAction};

fn event(tag: u8) -> SignedEvent {
    SignedEvent { id: [tag; 32], body: format!("event {}", tag), signature: vec![tag, tag] }
}

fn ack(tag: u8, accepted: bool, message: &str) -> RelayOk {
    RelayOk { event_id: [tag; 32], accepted, message: message.to_string() }
}

#[test]
fn writer_starts_running_and_empty() {
    let writer: Correlator<u32> = Correlator::new();
    assert!(writer.is_running());
    assert!(!writer.is_pending(&[1u8; 32]));
}

#[test]
fn writer_sends_a_subscription_as_it_is() {
    let mut writer: Correlator<u32> = Correlator::new();
    let request = Request { body: "[\"REQ\",\"sub\",{}]".to_string() };
    let action = writer.on_command(ClientCommand::Req(request.clone()));
    assert_eq!(action, WriterAction::Send(Outgoing::Subscription(request), None));
    assert!(!writer.is_pending(&[0u8; 32]));
}

#[test]
fn writer_registers_an_event_and_sends_it() {
    let mut writer: Correlator<u32> = Correlator::new();
    let action = writer.on_command(ClientCommand::Event(event(1), 11));
    assert_eq!(action, WriterAction::Send(Outgoing::Publication(event(1)), None));
    assert!(writer.is_pending(&[1u8; 32]));
    assert!(!writer.is_pending(&[2u8; 32]));
}

#[test]
fn writer_resolves_the_waiter_of_the_acknowledged_event() {
    let mut writer: Correlator<u32> = Correlator::new();
    writer.on_command(ClientCommand::Event(event(1), 11));
    writer.on_command(ClientCommand::Event(event(2), 22));
    writer.on_command(ClientCommand::Event(event(3), 33));
    let action = writer.on_command(ClientCommand::Ack(ack(2, true, "")));
    assert_eq!(action, WriterAction::Resolve(22, ack(2, true, "")));
    assert!(writer.is_pending(&[1u8; 32]));
    assert!(!writer.is_pending(&[2u8; 32]));
    assert!(writer.is_pending(&[3u8; 32]));
}

#[test]
fn writer_hands_over_a_refusal_unchanged() {
    let mut writer: Correlator<u32> = Correlator::new();
    writer.on_command(ClientCommand::Event(event(5), 55));
    let action = writer.on_command(ClientCommand::Ack(ack(5, false, "blocked: spam")));
    assert_eq!(action, WriterAction::Resolve(55, ack(5, false, "blocked: spam")));
}

#[test]
fn writer_drops_an_acknowledgement_nobody_waits_for() {
    let mut writer: Correlator<u32> = Correlator::new();
    writer.on_command(ClientCommand::Event(event(1), 11));
    let action = writer.on_command(ClientCommand::Ack(ack(9, true, "")));
    assert_eq!(action, WriterAction::Ignore);
    assert!(writer.is_pending(&[1u8; 32]));
    let action = writer.on_command(ClientCommand::Ack(ack(1, true, "")));
    assert_eq!(action, WriterAction::Resolve(11, ack(1, true, "")));
}

#[test]
fn writer_resolves_a_waiter_at_most_once() {
    let mut writer: Correlator<u32> = Correlator::new();
    writer.on_command(ClientCommand::Event(event(1), 11));
    let first = writer.on_command(ClientCommand::Ack(ack(1, true, "")));
    let second = writer.on_command(ClientCommand::Ack(ack(1, true, "")));
    assert_eq!(first, WriterAction::Resolve(11, ack(1, true, "")));
    assert_eq!(second, WriterAction::Ignore);
}

#[test]
fn writer_tells_identifiers_apart_by_every_byte() {
    let mut writer: Correlator<u32> = Correlator::new();
    let mut near = [1u8; 32];
    near[31] = 2;
    writer.on_command(ClientCommand::Event(event(1), 11));
    let stray = RelayOk { event_id: near, accepted: true, message: String::new() };
    assert_eq!(writer.on_command(ClientCommand::Ack(stray)), WriterAction::Ignore);
    assert!(writer.is_pending(&[1u8; 32]));
    assert!(!writer.is_pending(&near));
}

#[test]
fn writer_replaces_the_waiter_of_a_repeated_event() {
    let mut writer: Correlator<u32> = Correlator::new();
    writer.on_command(ClientCommand::Event(event(1), 11));
    let action = writer.on_command(ClientCommand::Event(event(1), 12));
    assert_eq!(action, WriterAction::Send(Outgoing::Publication(event(1)), Some(11)));
    let action = writer.on_command(ClientCommand::Ack(ack(1, true, "")));
    assert_eq!(action, WriterAction::Resolve(12, ack(1, true, "")));
    assert_eq!(writer.on_command(ClientCommand::Ack(ack(1, true, ""))), WriterAction::Ignore);
}

#[test]
fn writer_sends_frames_in_submission_order() {
    let mut writer: Correlator<u32> = Correlator::new();
    let request = Request { body: "filter".to_string() };
    let commands = vec![
        ClientCommand::Event(event(1), 11),
        ClientCommand::Event(event(2), 22),
        ClientCommand::Ack(ack(1, true, "")),
        ClientCommand::Req(request.clone()),
        ClientCommand::Event(event(3), 33),
    ];
    let mut sent = Vec::new();
    for command in commands {
        if let WriterAction::Send(frame, _) = writer.on_command(command) {
            sent.push(frame);
        }
    }
    assert_eq!(
        sent,
        vec![
            Outgoing::Publication(event(1)),
            Outgoing::Publication(event(2)),
            Outgoing::Subscription(request),
            Outgoing::Publication(event(3)),
        ]
    );
}

#[test]
fn writer_goes_on_after_a_write_that_went_through() {
    let mut writer: Correlator<u32> = Correlator::new();
    writer.on_command(ClientCommand::Event(event(1), 11));
    assert!(writer.after_write(true));
    assert!(writer.is_running());
    assert!(writer.is_pending(&[1u8; 32]));
}

#[test]
fn writer_stops_for_good_after_a_failed_write() {
    let mut writer: Correlator<u32> = Correlator::new();
    writer.on_command(ClientCommand::Event(event(1), 11));
    assert!(!writer.after_write(false));
    assert!(!writer.is_running());
    assert!(!writer.after_write(true));
    assert_eq!(
        writer.on_command(ClientCommand::Ack(ack(1, true, ""))),
        WriterAction::Halt(ClientCommand::Ack(ack(1, true, "")))
    );
    assert_eq!(
        writer.on_command(ClientCommand::Event(event(2), 22)),
        WriterAction::Halt(ClientCommand::Event(event(2), 22))
    );
    let request = Request { body: "filter".to_string() };
    assert_eq!(
        writer.on_command(ClientCommand::Req(request.clone())),
        WriterAction::Halt(ClientCommand::Req(request))
    );
    assert!(writer.is_pending(&[1u8; 32]));
    assert!(!writer.is_pending(&[2u8; 32]));
}

#[test]
fn writer_holds_many_pending_events() {
    let mut writer: Correlator<usize> = Correlator::new();
    for tag in 0..200u8 {
        writer.on_command(ClientCommand::Event(event(tag), tag as usize));
    }
    for tag in (0..200u8).rev() {
        let action = writer.on_command(ClientCommand::Ack(ack(tag, true, "")));
        assert_eq!(action, WriterAction::Resolve(tag as usize, ack(tag, true, "")));
    }
    for tag in 0..200u8 {
        assert!(!writer.is_pending(&[tag; 32]));
    }
}

#[test]
fn writer_hands_back_the_displaced_slot_once() {
    let mut writer: Correlator<u32> = Correlator::new();
    let actions = vec![
        writer.on_command(ClientCommand::Event(event(1), 11)),
        writer.on_command(ClientCommand::Event(event(2), 21)),
        writer.on_command(ClientCommand::Event(event(1), 12)),
        writer.on_command(ClientCommand::Event(event(1), 13)),
    ];
    assert_eq!(
        actions,
        vec![
            WriterAction::Send(Outgoing::Publication(event(1)), None),
            WriterAction::Send(Outgoing::Publication(event(2)), None),
            WriterAction::Send(Outgoing::Publication(event(1)), Some(11)),
            WriterAction::Send(Outgoing::Publication(event(1)), Some(12)),
        ]
    );
    assert_eq!(
        writer.on_command(ClientCommand::Ack(ack(1, true, ""))),
        WriterAction::Resolve(13, ack(1, true, ""))
    );
    // Once acknowledged, the identifier is free again.
    assert_eq!(
        writer.on_command(ClientCommand::Event(event(1), 14)),
        WriterAction::Send(Outgoing::Publication(event(1)), None)
    );
    assert_eq!(
        writer.on_command(ClientCommand::Ack(ack(2, true, ""))),
        WriterAction::Resolve(21, ack(2, true, ""))
    );
}
