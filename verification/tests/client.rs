use nostr_plus::client::{
    publish_outcome, seal, submit_outcome, AckWait, Client, ClientError, ConnectPlan,
    ACK_TIMEOUT_SECS, COMMAND_CAPACITY, SINK_CAPACITY,
};
use nostr_plus::command::ClientCommand;
use nostr_plus::reader::{on_item, Inbound, ReaderAction};
use nostr_plus::signer::{EoaSigner, SchnorrSigner, Sender, SenderSigner, SignError, Signer};
use nostr_plus::types::{
    Bytes32, Outgoing, RelayMessage, RelayOk, Request, SignedEvent, UnsignedEvent,
};
use nostr_plus::writer::{Correlator, WriterAction};

/// Signs by repeating a mark and the first byte of the digest.
struct MarkKey(u8);

impl Signer for MarkKey {
    fn try_sign(&self, msg: &Bytes32) -> Result<Vec<u8>, SignError> {
        Ok(vec![self.0, msg[0]])
    }
}

/// Never signs.
struct LockedKey;

impl Signer for LockedKey {
    fn try_sign(&self, _msg: &Bytes32) -> Result<Vec<u8>, SignError> {
        Err(SignError { reason: "key is locked".to_string() })
    }
}

type TestClient = Client<MarkKey, LockedKey, u64>;

const E1: Bytes32 = [0xe1; 32];
const E2: Bytes32 = [0xe2; 32];

fn schnorr() -> SenderSigner<MarkKey, LockedKey> {
    SenderSigner::Schnorr(SchnorrSigner { key: MarkKey(0x5c), public_key: [0xaa; 32] })
}

fn eoa() -> SenderSigner<MarkKey, LockedKey> {
    SenderSigner::Eoa(EoaSigner { key: LockedKey, address: [0xbb; 20] })
}

fn connected(signer: SenderSigner<MarkKey, LockedKey>) -> TestClient {
    let mut client = Client::new(signer);
    let plan = client.connect("wss://relay.example").unwrap();
    client.finish_connect(plan, Some(1)).unwrap();
    client
}

fn unsigned(id: Bytes32) -> UnsignedEvent {
    UnsignedEvent { id, body: "[0,\"aa\",1700000000,1,[],\"hello\"]".to_string() }
}

/// Runs a publish of `id` through client, writer and reader, with the relay
/// answering `reply` (or not at all), and returns what the publisher reports.
fn round_trip(id: Bytes32, reply: Option<RelayOk>) -> Result<(), ClientError> {
    let client = connected(schnorr());
    let mut writer: Correlator<u32> = Correlator::new();
    let (handle, command) = client.publish(unsigned(id), 77u32).unwrap();
    assert_eq!(handle, &1);
    let sent = writer.on_command(command);
    assert!(matches!(sent, WriterAction::Send(Outgoing::Publication(_), None)));
    assert!(writer.after_write(true));
    let wait = match reply {
        None => AckWait::TimedOut,
        Some(ok) => {
            let frame: Inbound<String> = Inbound::Text(Some(RelayMessage::Ack(ok)));
            let forwarded = match on_item(frame, false) {
                ReaderAction::ForwardAck(ok) => ok,
                other => panic!("the reader did not forward the acknowledgement: {:?}", other),
            };
            match writer.on_command(ClientCommand::Ack(forwarded)) {
                WriterAction::Resolve(77, ok) => AckWait::Resolved(ok),
                WriterAction::Ignore => AckWait::TimedOut,
                other => panic!("unexpected action: {:?}", other),
            }
        },
    };
    publish_outcome(wait)
}

#[test]
fn client_starts_without_a_connection() {
    let client: TestClient = Client::new(schnorr());
    assert!(!client.is_connected());
    assert_eq!(client.handle(), None);
}

#[test]
fn connect_asks_for_a_bounded_command_channel_and_no_sink() {
    let client: TestClient = Client::new(schnorr());
    let plan = client.connect("wss://relay.example").unwrap();
    assert_eq!(
        plan,
        ConnectPlan {
            url: "wss://relay.example".to_string(),
            command_capacity: 32,
            sink_capacity: None
        }
    );
    assert_eq!(COMMAND_CAPACITY, 32);
    assert!(!client.is_connected());
}

#[test]
fn connect_with_channel_asks_for_a_sink_of_ten() {
    let client: TestClient = Client::new(schnorr());
    let plan = client.connect_with_channel("wss://relay.example").unwrap();
    assert_eq!(
        plan,
        ConnectPlan {
            url: "wss://relay.example".to_string(),
            command_capacity: 32,
            sink_capacity: Some(10)
        }
    );
    assert_eq!(SINK_CAPACITY, 10);
}

#[test]
fn finish_connect_keeps_the_handle() {
    let mut client: TestClient = Client::new(schnorr());
    let plan = client.connect("wss://relay.example").unwrap();
    assert_eq!(client.finish_connect(plan, Some(42)), Ok(()));
    assert!(client.is_connected());
    assert_eq!(client.handle(), Some(&42));
}

#[test]
fn finish_connect_reports_an_unreachable_relay() {
    let mut client: TestClient = Client::new(schnorr());
    let plan = client.connect("wss://nowhere.example").unwrap();
    assert_eq!(
        client.finish_connect(plan, None),
        Err(ClientError::CannotConnect("wss://nowhere.example".to_string()))
    );
    assert!(!client.is_connected());
    assert!(client.connect("wss://relay.example").is_ok());
}

#[test]
fn connect_twice_is_refused() {
    let client = connected(schnorr());
    assert_eq!(client.connect("wss://relay.example"), Err(ClientError::AlreadyConnected));
    assert_eq!(client.connect("wss://other.example"), Err(ClientError::AlreadyConnected));
    assert_eq!(
        client.connect_with_channel("wss://relay.example"),
        Err(ClientError::AlreadyConnected)
    );
    assert_eq!(client._connect("wss://relay.example", true), Err(ClientError::AlreadyConnected));
    assert_eq!(client.handle(), Some(&1));
}

#[test]
fn finish_connect_twice_keeps_the_first_connection() {
    let mut client = connected(schnorr());
    let stale = ConnectPlan {
        url: "wss://other.example".to_string(),
        command_capacity: 32,
        sink_capacity: None,
    };
    assert_eq!(client.finish_connect(stale.clone(), Some(2)), Err(ClientError::AlreadyConnected));
    assert_eq!(client.finish_connect(stale, None), Err(ClientError::AlreadyConnected));
    assert_eq!(client.handle(), Some(&1));
}

#[test]
fn publish_before_connect_fails() {
    let client: TestClient = Client::new(schnorr());
    assert_eq!(client.publish(unsigned(E1), 7u32), Err(ClientError::NotConnected));
}

#[test]
fn subscribe_before_connect_fails() {
    let client: TestClient = Client::new(schnorr());
    let request = Request { body: "[\"REQ\",\"s\",{}]".to_string() };
    assert_eq!(client.subscribe::<u32>(request), Err(ClientError::NotConnected));
}

#[test]
fn publish_before_connect_does_not_ask_the_signer() {
    // The account key never signs; the missing connection is reported first.
    let client: TestClient = Client::new(eoa());
    assert_eq!(client.publish(unsigned(E1), 7u32), Err(ClientError::NotConnected));
}

#[test]
fn publish_signs_the_identifier_and_wraps_the_event() {
    let client = connected(schnorr());
    let (handle, command) = client.publish(unsigned(E1), 7u32).unwrap();
    assert_eq!(handle, &1);
    assert_eq!(
        command,
        ClientCommand::Event(
            SignedEvent { id: E1, body: unsigned(E1).body, signature: vec![0x5c, 0xe1] },
            7
        )
    );
}

#[test]
fn publish_surfaces_a_signing_failure() {
    let client = connected(eoa());
    assert_eq!(
        client.publish(unsigned(E1), 7u32),
        Err(ClientError::Signing(SignError { reason: "key is locked".to_string() }))
    );
}

#[test]
fn seal_puts_the_signature_on_the_event() {
    let command = seal(unsigned(E2), 'w', Ok(vec![1, 2, 3]));
    assert_eq!(
        command,
        Ok(ClientCommand::Event(
            SignedEvent { id: E2, body: unsigned(E2).body, signature: vec![1, 2, 3] },
            'w'
        ))
    );
}

#[test]
fn seal_turns_a_signing_failure_into_the_publish_failure() {
    let failure = SignError { reason: "no".to_string() };
    assert_eq!(
        seal(unsigned(E2), 'w', Err(failure.clone())),
        Err(ClientError::Signing(failure))
    );
}

#[test]
fn subscribe_wraps_the_request() {
    let client = connected(schnorr());
    let request = Request { body: "[\"REQ\",\"s\",{\"kinds\":[1]}]".to_string() };
    assert_eq!(client.subscribe::<u32>(request.clone()), Ok((&1, ClientCommand::Req(request))));
}

#[test]
fn subscribe_does_not_wait_for_a_pending_publish() {
    let client = connected(schnorr());
    let mut writer: Correlator<u32> = Correlator::new();
    writer.on_command(client.publish(unsigned(E1), 7u32).unwrap().1);
    let request = Request { body: "filter".to_string() };
    let (_, command) = client.subscribe::<u32>(request.clone()).unwrap();
    assert_eq!(
        writer.on_command(command),
        WriterAction::Send(Outgoing::Subscription(request), None)
    );
    assert!(writer.is_pending(&E1));
}

#[test]
fn accepted_publish_reports_success() {
    let ok = RelayOk { event_id: E1, accepted: true, message: "whatever".to_string() };
    assert_eq!(publish_outcome(AckWait::Resolved(ok)), Ok(()));
}

#[test]
fn rejected_publish_carries_the_message_verbatim() {
    let message = "invalid: \u{1F980} bad sig \"quoted\"\n";
    let ok = RelayOk { event_id: E1, accepted: false, message: message.to_string() };
    assert_eq!(
        publish_outcome(AckWait::Resolved(ok)),
        Err(ClientError::Rejected(message.to_string()))
    );
}

#[test]
fn rejected_publish_with_an_empty_message() {
    let ok = RelayOk { event_id: E1, accepted: false, message: String::new() };
    assert_eq!(publish_outcome(AckWait::Resolved(ok)), Err(ClientError::Rejected(String::new())));
}

#[test]
fn abandoned_publish_reports_a_timeout() {
    assert_eq!(publish_outcome(AckWait::Abandoned), Err(ClientError::AckTimeout));
    assert_eq!(publish_outcome(AckWait::Abandoned), publish_outcome(AckWait::TimedOut));
}

#[test]
fn unanswered_publish_reports_a_timeout() {
    assert_eq!(publish_outcome(AckWait::TimedOut), Err(ClientError::AckTimeout));
    assert_eq!(ACK_TIMEOUT_SECS, 20);
}

#[test]
fn submit_outcome_reports_a_closed_channel() {
    assert_eq!(submit_outcome(true), Ok(()));
    assert_eq!(submit_outcome(false), Err(ClientError::ChannelClosed));
}

#[test]
fn sender_of_a_schnorr_signer_is_its_public_key() {
    let client: TestClient = Client::new(schnorr());
    assert_eq!(client.sender(), Sender::SchnorrPubKey([0xaa; 32]));
    assert_eq!(schnorr().sender(), Sender::SchnorrPubKey([0xaa; 32]));
}

#[test]
fn sender_of_an_account_is_its_address() {
    let client: TestClient = Client::new(eoa());
    assert_eq!(client.sender(), Sender::EoaAddress([0xbb; 20]));
    assert_eq!(eoa().sender(), Sender::EoaAddress([0xbb; 20]));
}

#[test]
fn try_sign_uses_the_key_of_the_chosen_kind() {
    let digest = [9u8; 32];
    let with_schnorr: TestClient = Client::new(schnorr());
    assert_eq!(with_schnorr.try_sign(&digest), Ok(vec![0x5c, 9]));
    let with_account: TestClient = Client::new(eoa());
    assert_eq!(
        with_account.try_sign(&digest),
        Err(SignError { reason: "key is locked".to_string() })
    );
    assert_eq!(schnorr().try_sign(&digest), Ok(vec![0x5c, 9]));
}

#[test]
fn try_sign_works_without_a_connection() {
    let client: TestClient = Client::new(schnorr());
    assert!(!client.is_connected());
    assert_eq!(client.try_sign(&[3u8; 32]), Ok(vec![0x5c, 3]));
}

#[test]
fn scenario_publish_accepted() {
    let reply = RelayOk { event_id: E1, accepted: true, message: String::new() };
    assert_eq!(round_trip(E1, Some(reply)), Ok(()));
}

#[test]
fn scenario_publish_rejected_as_duplicate() {
    let reply = RelayOk { event_id: E1, accepted: false, message: "duplicate".to_string() };
    assert_eq!(round_trip(E1, Some(reply)), Err(ClientError::Rejected("duplicate".to_string())));
}

#[test]
fn scenario_publish_without_an_answer_times_out() {
    assert_eq!(round_trip(E2, None), Err(ClientError::AckTimeout));
}

#[test]
fn scenario_answer_for_another_event_does_not_resolve_the_publish() {
    let reply = RelayOk { event_id: E1, accepted: true, message: String::new() };
    assert_eq!(round_trip(E2, Some(reply)), Err(ClientError::AckTimeout));
}

#[test]
fn error_messages_read_as_documented() {
    assert_eq!(ClientError::AlreadyConnected.message(), "Already connected");
    assert_eq!(
        ClientError::CannotConnect("wss://relay.example".to_string()).message(),
        "Cannot connect to wss://relay.example"
    );
    assert_eq!(ClientError::NotConnected.message(), "missing channel");
    assert_eq!(
        ClientError::Signing(SignError { reason: "key is locked".to_string() }).message(),
        "key is locked"
    );
    assert_eq!(ClientError::ChannelClosed.message(), "channel closed");
    assert_eq!(ClientError::Rejected("duplicate".to_string()).message(), "rejected: duplicate");
    assert_eq!(ClientError::Rejected(String::new()).message(), "rejected: ");
    assert_eq!(ClientError::AckTimeout.message(), "ACK timeout");
}

#[test]
fn scenario_rejection_message_reaches_the_caller() {
    let reply = RelayOk { event_id: E1, accepted: false, message: "duplicate".to_string() };
    let failure = round_trip(E1, Some(reply)).unwrap_err();
    assert_eq!(failure.message(), "rejected: duplicate");
}

#[test]
fn scenario_late_acknowledgement_does_not_undo_the_timeout() {
    let client = connected(schnorr());
    let mut writer: Correlator<u32> = Correlator::new();
    let (_, command) = client.publish(unsigned(E2), 77u32).unwrap();
    writer.on_command(command);
    assert_eq!(publish_outcome(AckWait::TimedOut), Err(ClientError::AckTimeout));
    // The entry stays behind until an acknowledgement clears it.
    assert!(writer.is_pending(&E2));
    let late = RelayOk { event_id: E2, accepted: true, message: String::new() };
    assert_eq!(
        writer.on_command(ClientCommand::Ack(late.clone())),
        WriterAction::Resolve(77, late.clone())
    );
    assert!(!writer.is_pending(&E2));
    assert_eq!(writer.on_command(ClientCommand::Ack(late)), WriterAction::Ignore);
}

#[test]
fn scenario_repeated_publish_leaves_the_first_publisher_to_time_out() {
    let client = connected(schnorr());
    let mut writer: Correlator<u32> = Correlator::new();
    let (_, first) = client.publish(unsigned(E1), 1u32).unwrap();
    let (_, second) = client.publish(unsigned(E1), 2u32).unwrap();
    let mut kept_aside = Vec::new();
    let mut sent = Vec::new();
    for command in [first, second] {
        match writer.on_command(command) {
            WriterAction::Send(frame, displaced) => {
                sent.push(frame);
                kept_aside.extend(displaced);
            },
            other => panic!("unexpected action: {:?}", other),
        }
        assert!(writer.after_write(true));
    }
    assert_eq!(sent.len(), 2);
    assert_eq!(sent[0], sent[1]);
    assert_eq!(kept_aside, vec![1]);
    let reply = RelayOk { event_id: E1, accepted: true, message: String::new() };
    let action = writer.on_command(ClientCommand::Ack(reply.clone()));
    assert_eq!(action, WriterAction::Resolve(2, reply.clone()));
    assert!(!writer.is_pending(&E1));
    // The second publisher has its verdict; the first was given up.
    assert_eq!(publish_outcome(AckWait::Resolved(reply)), Ok(()));
    assert_eq!(publish_outcome(AckWait::Abandoned), Err(ClientError::AckTimeout));
}

#[test]
fn scenario_failed_write_leaves_every_publisher_to_time_out() {
    let client = connected(schnorr());
    let mut writer: Correlator<u32> = Correlator::new();
    writer.on_command(client.publish(unsigned(E1), 1u32).unwrap().1);
    assert!(writer.after_write(true));
    let failing = client.publish(unsigned(E2), 2u32).unwrap().1;
    assert!(matches!(writer.on_command(failing), WriterAction::Send(_, None)));
    assert!(!writer.after_write(false));
    // Nothing is resolved any more, and the table stays as it was.
    for id in [E1, E2] {
        let late = RelayOk { event_id: id, accepted: true, message: String::new() };
        assert_eq!(
            writer.on_command(ClientCommand::Ack(late.clone())),
            WriterAction::Halt(ClientCommand::Ack(late))
        );
        assert!(writer.is_pending(&id));
    }
    // The client is told nothing and stays connected.
    assert!(client.is_connected());
    assert_eq!(publish_outcome(AckWait::TimedOut), Err(ClientError::AckTimeout));
    assert_eq!(publish_outcome(AckWait::Abandoned), Err(ClientError::AckTimeout));
}
