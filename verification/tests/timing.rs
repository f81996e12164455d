use std::sync::{Arc, Mutex};
use std::time::{Duration, Instant};

use handshake_timing::checkpoint::{TimingCheckpoint, TimingSubscriber, TimingSubscriberSlot};
use handshake_timing::clock::saturating_timestamp;
use handshake_timing::handshake::HandshakeType;
use handshake_timing::role::{Role, Side};
use handshake_timing::state::{TimingEvent, TimingState};

/// A recording subscriber that captures all checkpoints into a shared Vec.
#[derive(Clone)]
struct RecordingSubscriber {
    checkpoints: Arc<Mutex<Vec<TimingCheckpoint>>>,
}

impl RecordingSubscriber {
    fn new() -> Self {
        Self {
            checkpoints: Arc::new(Mutex::new(Vec::new())),
        }
    }

    fn checkpoints(&self) -> Vec<TimingCheckpoint> {
        self.checkpoints.lock().unwrap().clone()
    }

    fn names(&self) -> Vec<String> {
        self.checkpoints().iter().map(|cp| cp.name.clone()).collect()
    }
}

impl TimingSubscriber for RecordingSubscriber {
    fn on_timing_checkpoint(&self, checkpoint: &TimingCheckpoint) {
        self.checkpoints.lock().unwrap().push(checkpoint.clone());
    }
}

fn message(ty: HandshakeType, elapsed_ns: u64) -> TimingEvent {
    TimingEvent::Message { ty, elapsed_ns }
}

/// A connection whose events are stamped by the clock.
fn run(side: Side, messages: &[HandshakeType], completes: bool) -> RecordingSubscriber {
    let recorder = RecordingSubscriber::new();
    let subscriber: Arc<dyn TimingSubscriber> = Arc::new(recorder.clone());
    let mut state: TimingState = TimingState::new(subscriber);
    state.emit(side, TimingEvent::Start { now: Instant::now() });
    for ty in messages {
        state.emit_message_now(side, *ty);
    }
    if completes {
        state.emit_end_now(side);
    }
    recorder
}

const CLIENT_FLIGHT: [HandshakeType; 5] = [
    HandshakeType::ServerHello,
    HandshakeType::EncryptedExtensions,
    HandshakeType::Certificate,
    HandshakeType::CertificateVerify,
    HandshakeType::Finished,
];

const SERVER_FLIGHT: [HandshakeType; 2] = [HandshakeType::ClientHello, HandshakeType::Finished];

#[test]
fn timing_subscriber_is_send_sync() {
    fn assert_send_sync<T: Send + Sync + ?Sized>() {}
    assert_send_sync::<dyn TimingSubscriber>();
}

#[test]
fn anchors_bracket_a_full_handshake() {
    let client = run(Side::Client, &CLIENT_FLIGHT, true);
    let server = run(Side::Server, &SERVER_FLIGHT, true);

    assert_eq!(
        client.names(),
        [
            "NEGOTIATE_START",
            "SERVER_HELLO",
            "ENCRYPTED_EXTENSIONS",
            "SERVER_CERT",
            "SERVER_CERT_VERIFY",
            "SERVER_FINISHED",
            "NEGOTIATE_END",
        ]
    );
    assert_eq!(
        server.names(),
        ["NEGOTIATE_START", "CLIENT_HELLO", "CLIENT_FINISHED", "NEGOTIATE_END"]
    );
    assert_eq!(client.checkpoints()[0].timestamp_ns, 0);
    assert_eq!(server.checkpoints()[0].timestamp_ns, 0);
}

#[test]
fn timestamps_of_a_handshake_never_decrease() {
    for recorder in [
        run(Side::Client, &CLIENT_FLIGHT, true),
        run(Side::Server, &SERVER_FLIGHT, true),
    ] {
        for window in recorder.checkpoints().windows(2) {
            assert!(window[1].timestamp_ns >= window[0].timestamp_ns);
        }
    }
}

#[test]
fn role_is_constant_per_connection() {
    for cp in run(Side::Client, &CLIENT_FLIGHT, true).checkpoints() {
        assert_eq!(cp.role, Role::Client);
        assert_eq!(cp.role.as_u8(), 1);
    }
    for cp in run(Side::Server, &SERVER_FLIGHT, true).checkpoints() {
        assert_eq!(cp.role, Role::Server);
        assert_eq!(cp.role.as_u8(), 0);
    }
}

#[test]
fn failed_handshake_keeps_its_checkpoints_and_has_no_end() {
    let recorder = run(Side::Client, &CLIENT_FLIGHT[..3], false);
    assert_eq!(
        recorder.names(),
        ["NEGOTIATE_START", "SERVER_HELLO", "ENCRYPTED_EXTENSIONS", "SERVER_CERT"]
    );
}

#[test]
fn post_handshake_messages_follow_the_end() {
    let recorder = RecordingSubscriber::new();
    let mut state = TimingState::new(Arc::new(recorder.clone()));
    state.emit(Side::Client, TimingEvent::Start { now: Instant::now() });
    state.emit(Side::Client, message(HandshakeType::Finished, 10));
    state.emit(Side::Client, TimingEvent::End { elapsed_ns: 20 });
    state.emit(Side::Client, message(HandshakeType::NewSessionTicket, 30));
    assert_eq!(
        recorder.names(),
        ["NEGOTIATE_START", "SERVER_FINISHED", "NEGOTIATE_END", "NEW_SESSION_TICKET"]
    );
    let stamps: Vec<u64> = recorder.checkpoints().iter().map(|cp| cp.timestamp_ns).collect();
    assert_eq!(stamps, [0, 10, 20, 30]);
}

#[test]
fn nothing_precedes_the_start() {
    let recorder = RecordingSubscriber::new();
    let mut state = TimingState::new(Arc::new(recorder.clone()));
    assert!(state.emit(Side::Server, message(HandshakeType::ClientHello, 3)).is_none());
    assert!(state.emit(Side::Server, TimingEvent::End { elapsed_ns: 4 }).is_none());
    assert!(recorder.checkpoints().is_empty());

    assert!(state.emit(Side::Server, TimingEvent::Start { now: Instant::now() }).is_some());
    assert!(state.emit(Side::Server, TimingEvent::End { elapsed_ns: 5 }).is_some());
    assert_eq!(recorder.names(), ["NEGOTIATE_START", "NEGOTIATE_END"]);
}

#[test]
fn each_anchor_is_emitted_once() {
    let recorder = RecordingSubscriber::new();
    let mut state = TimingState::new(Arc::new(recorder.clone()));
    assert!(state.emit(Side::Client, TimingEvent::Start { now: Instant::now() }).is_some());
    assert!(state.emit(Side::Client, TimingEvent::Start { now: Instant::now() }).is_none());
    assert!(state.emit(Side::Client, TimingEvent::End { elapsed_ns: 1 }).is_some());
    assert!(state.emit(Side::Client, TimingEvent::End { elapsed_ns: 2 }).is_none());
    assert!(state.emit(Side::Client, TimingEvent::Start { now: Instant::now() }).is_none());
    assert_eq!(recorder.names(), ["NEGOTIATE_START", "NEGOTIATE_END"]);
}

#[test]
fn what_is_returned_is_what_the_subscriber_received() {
    let recorder = RecordingSubscriber::new();
    let mut state = TimingState::new(Arc::new(recorder.clone()));
    state.emit(Side::Server, TimingEvent::Start { now: Instant::now() });
    let emitted = state
        .emit(Side::Server, message(HandshakeType::Certificate, 17))
        .unwrap();
    assert_eq!(emitted.name, "CLIENT_CERT");
    assert_eq!(emitted.role, Role::Server);
    assert_eq!(emitted.timestamp_ns, 17);
    let received = recorder.checkpoints().pop().unwrap();
    assert_eq!(received.name, emitted.name);
    assert_eq!(received.role, emitted.role);
    assert_eq!(received.timestamp_ns, emitted.timestamp_ns);
}

#[test]
fn state_hands_out_its_subscriber() {
    let recorder = RecordingSubscriber::new();
    let state = TimingState::new(Arc::new(recorder.clone()));
    state.subscriber().on_timing_checkpoint(&TimingCheckpoint {
        name: "KEY_UPDATE".to_string(),
        role: Role::Client,
        timestamp_ns: 8,
    });
    assert_eq!(recorder.names(), ["KEY_UPDATE"]);
}

#[test]
fn elapsed_is_zero_before_the_epoch_is_set() {
    let state = TimingState::new(Arc::new(RecordingSubscriber::new()));
    assert_eq!(state.elapsed_ns_now(), 0);
}

#[test]
fn elapsed_counts_from_the_first_start() {
    let mut state = TimingState::new(Arc::new(RecordingSubscriber::new()));
    let start = Instant::now();
    state.emit(Side::Client, TimingEvent::Start { now: start });
    while start.elapsed() < Duration::from_millis(3) {}
    state.emit(Side::Client, TimingEvent::Start { now: Instant::now() });

    let lower = start.elapsed().as_nanos() as u64;
    let first = state.elapsed_ns_now();
    let second = state.elapsed_ns_now();
    let upper = start.elapsed().as_nanos() as u64;
    assert!(lower >= 3_000_000);
    assert!(lower <= first && first <= second && second <= upper);
}

#[test]
fn checkpoints_are_stamped_from_the_epoch() {
    let recorder = RecordingSubscriber::new();
    let mut state = TimingState::new(Arc::new(recorder.clone()));
    assert!(state.emit_message_now(Side::Client, HandshakeType::ServerHello).is_none());
    assert!(state.emit_end_now(Side::Client).is_none());

    let start = Instant::now();
    state.emit(Side::Client, TimingEvent::Start { now: start });
    while start.elapsed() < Duration::from_millis(3) {}
    let lower = start.elapsed().as_nanos() as u64;
    let hello = state.emit_message_now(Side::Client, HandshakeType::ServerHello).unwrap();
    let end = state.emit_end_now(Side::Client).unwrap();
    let upper = start.elapsed().as_nanos() as u64;
    assert!(lower >= 3_000_000);
    assert!(lower <= hello.timestamp_ns);
    assert!(hello.timestamp_ns <= end.timestamp_ns && end.timestamp_ns <= upper);

    assert!(state.emit_end_now(Side::Client).is_none());
    assert_eq!(recorder.names(), ["NEGOTIATE_START", "SERVER_HELLO", "NEGOTIATE_END"]);
    assert_eq!(recorder.checkpoints()[1].timestamp_ns, hello.timestamp_ns);
    assert_eq!(recorder.checkpoints()[2].timestamp_ns, end.timestamp_ns);
}

#[test]
fn timestamps_saturate() {
    assert_eq!(saturating_timestamp(None), 0);
    assert_eq!(saturating_timestamp(Some(0)), 0);
    assert_eq!(saturating_timestamp(Some(1_500)), 1_500);
    assert_eq!(saturating_timestamp(Some(u64::MAX as u128)), u64::MAX);
    assert_eq!(saturating_timestamp(Some(u64::MAX as u128 + 1)), u64::MAX);
    assert_eq!(saturating_timestamp(Some(u128::MAX)), u64::MAX);
}

#[test]
fn slot_description() {
    let full = TimingSubscriberSlot(Some(Arc::new(RecordingSubscriber::new())));
    assert_eq!(full.debug_description(), "<timing subscriber>");
    assert_eq!(full.clone().debug_description(), "<timing subscriber>");
    assert_eq!(TimingSubscriberSlot(None).debug_description(), "None");
}

#[test]
fn only_the_last_subscriber_in_a_slot_receives() {
    let first = RecordingSubscriber::new();
    let last = RecordingSubscriber::new();
    let mut slot = TimingSubscriberSlot(Some(Arc::new(first.clone())));
    slot.0 = Some(Arc::new(last.clone()));

    let mut state: TimingState = TimingState::new(slot.0.unwrap());
    state.emit(Side::Client, TimingEvent::Start { now: Instant::now() });
    assert!(first.checkpoints().is_empty());
    assert_eq!(last.names(), ["NEGOTIATE_START"]);
}
