use zmq_bench::endpoint::Endpoint;
use zmq_bench::responder::{Responder, ResponderStage};
use zmq_bench::transport::{Action, Event, Operation, Outcome, Phase, Role};

fn endpoint() -> Endpoint {
    Endpoint::Tcp { host: String::from("127.0.0.1"), port: 4321 }
}

fn message(bytes: &[u8]) -> zmq::Message {
    zmq::Message::from(bytes)
}

/// A responder that is bound and waits for its first request.
fn bound() -> Responder {
    let (responder, _) = Responder::begin(&endpoint());
    let (responder, _) = responder.step(Event::Completed);
    let (responder, _) = responder.step(Event::Completed);
    let (responder, action) = responder.step(Event::Completed);
    assert_eq!(action, Action::Receive(zmq::Message::new()));
    responder
}

#[test]
fn responder_begins_with_a_socket_of_its_role() {
    let (responder, action) = Responder::begin(&endpoint());
    assert_eq!(action, Action::OpenSocket(Role::Responder));
    assert_eq!(responder.stage(), ResponderStage::Opening);
    assert_eq!(responder.endpoint(), "tcp://127.0.0.1:4321");
}

#[test]
fn responder_binds_and_announces() {
    let (responder, _) = Responder::begin(&endpoint());
    let (responder, action) = responder.step(Event::Completed);
    assert_eq!(action, Action::Bind(String::from("tcp://127.0.0.1:4321")));
    assert_eq!(responder.stage(), ResponderStage::Binding);
    let (responder, action) = responder.step(Event::Completed);
    assert_eq!(action, Action::Print(String::from("Binding to tcp://127.0.0.1:4321")));
    assert_eq!(responder.stage(), ResponderStage::Announcing);
    let (responder, action) = responder.step(Event::Completed);
    assert_eq!(action, Action::Receive(zmq::Message::new()));
    assert_eq!(responder.stage(), ResponderStage::Awaiting);
    assert_eq!(responder.endpoint(), "tcp://127.0.0.1:4321");
}

#[test]
fn responder_receives_into_an_empty_message() {
    let (responder, _) = Responder::begin(&endpoint());
    let (responder, _) = responder.step(Event::Completed);
    let (responder, _) = responder.step(Event::Completed);
    let (_, action) = responder.step(Event::Completed);
    match action {
        Action::Receive(buffer) => assert_eq!(buffer.len(), 0),
        other => panic!("{:?}", other),
    }
}

#[test]
fn responder_sends_back_what_it_received() {
    let payloads: Vec<Vec<u8>> = vec![
        vec![],
        vec![0],
        vec![1, 2, 3],
        vec![255; 16],
        (0..=255).collect(),
        vec![7; 1000000],
    ];
    let mut responder = bound();
    for payload in payloads {
        let (next, action) = responder.step(Event::Received(message(&payload)));
        match action {
            Action::Send(reply) => assert_eq!(&reply[..], &payload[..]),
            other => panic!("{:?}", other),
        }
        assert_eq!(next.stage(), ResponderStage::Replying);
        let (next, action) = next.step(Event::Completed);
        assert_eq!(action, Action::Receive(zmq::Message::new()));
        assert_eq!(next.stage(), ResponderStage::Awaiting);
        responder = next;
    }
}

#[test]
fn responder_takes_no_second_message_before_its_reply() {
    let responder = bound();
    let (responder, action) = responder.step(Event::Received(message(b"first")));
    assert_eq!(action, Action::Send(message(b"first")));
    let (responder, action) = responder.step(Event::Received(message(b"second")));
    assert_eq!(action, Action::Exit(Outcome::Failed(Operation::Send)));
    assert_eq!(responder.stage(), ResponderStage::Terminated(Outcome::Failed(Operation::Send)));
}

#[test]
fn responder_alternates_receive_and_send() {
    let mut responder = bound();
    let mut receives: u32 = 1;
    let mut sends: u32 = 0;
    for round in 0u8..50 {
        let (next, action) = responder.step(Event::Received(message(&[round])));
        assert!(matches!(action, Action::Send(_)));
        sends += 1;
        assert_eq!(receives, sends);
        let (next, action) = next.step(Event::Completed);
        assert!(matches!(action, Action::Receive(_)));
        receives += 1;
        assert_eq!(receives, sends + 1);
        responder = next;
    }
    assert_eq!(responder.stage(), ResponderStage::Awaiting);
}

#[test]
fn responder_gives_up_when_the_socket_fails() {
    let (responder, _) = Responder::begin(&endpoint());
    let (responder, action) = responder.step(Event::Failed);
    assert_eq!(action, Action::Exit(Outcome::Failed(Operation::OpenSocket)));
    assert_eq!(
        responder.stage(),
        ResponderStage::Terminated(Outcome::Failed(Operation::OpenSocket))
    );
}

#[test]
fn responder_gives_up_when_the_bind_fails() {
    let (responder, _) = Responder::begin(&endpoint());
    let (responder, _) = responder.step(Event::Completed);
    let (responder, action) = responder.step(Event::Failed);
    assert_eq!(action, Action::Exit(Outcome::Failed(Operation::Bind)));
    assert_eq!(responder.stage(), ResponderStage::Terminated(Outcome::Failed(Operation::Bind)));
}

#[test]
fn responder_writes_nothing_when_the_bind_fails() {
    let (mut responder, first) = Responder::begin(&endpoint());
    let mut asked: Vec<Action> = vec![first];
    for event in vec![Event::Completed, Event::Failed, Event::Completed, Event::Completed] {
        let (next, action) = responder.step(event);
        asked.push(action);
        responder = next;
    }
    assert!(asked.iter().all(|action| !matches!(action, Action::Print(_))));
    assert_eq!(
        asked,
        vec![
            Action::OpenSocket(Role::Responder),
            Action::Bind(String::from("tcp://127.0.0.1:4321")),
            Action::Exit(Outcome::Failed(Operation::Bind)),
            Action::Exit(Outcome::Failed(Operation::Bind)),
            Action::Exit(Outcome::Failed(Operation::Bind)),
        ]
    );
}

#[test]
fn responder_writes_its_line_once_and_before_the_first_receive() {
    let (mut responder, first) = Responder::begin(&endpoint());
    let mut asked: Vec<Action> = vec![first];
    let events = vec![
        Event::Completed,
        Event::Completed,
        Event::Completed,
        Event::Received(message(b"one")),
        Event::Completed,
        Event::Received(message(b"two")),
        Event::Completed,
    ];
    for event in events {
        let (next, action) = responder.step(event);
        asked.push(action);
        responder = next;
    }
    let lines: Vec<usize> =
        (0..asked.len()).filter(|i| matches!(asked[*i], Action::Print(_))).collect();
    assert_eq!(lines, vec![2]);
    assert!(matches!(asked[1], Action::Bind(_)));
    assert!(matches!(asked[3], Action::Receive(_)));
}

#[test]
fn responder_gives_up_when_the_line_fails() {
    let (responder, _) = Responder::begin(&endpoint());
    let (responder, _) = responder.step(Event::Completed);
    let (responder, _) = responder.step(Event::Completed);
    let (_, action) = responder.step(Event::Failed);
    assert_eq!(action, Action::Exit(Outcome::Failed(Operation::Print)));
}

#[test]
fn responder_gives_up_when_a_receive_fails() {
    let responder = bound();
    let (responder, action) = responder.step(Event::Failed);
    assert_eq!(action, Action::Exit(Outcome::Failed(Operation::Receive)));
    assert_eq!(responder.stage(), ResponderStage::Terminated(Outcome::Failed(Operation::Receive)));
}

#[test]
fn responder_gives_up_when_a_send_fails() {
    let responder = bound();
    let (responder, _) = responder.step(Event::Received(message(b"ping")));
    let (responder, action) = responder.step(Event::Failed);
    assert_eq!(action, Action::Exit(Outcome::Failed(Operation::Send)));
    assert_eq!(responder.stage(), ResponderStage::Terminated(Outcome::Failed(Operation::Send)));
}

#[test]
fn responder_counts_an_event_out_of_turn_as_a_failure() {
    let (responder, _) = Responder::begin(&endpoint());
    let (_, action) = responder.step(Event::Received(message(b"early")));
    assert_eq!(action, Action::Exit(Outcome::Failed(Operation::OpenSocket)));

    let (_, action) = bound().step(Event::Completed);
    assert_eq!(action, Action::Exit(Outcome::Failed(Operation::Receive)));
}

#[test]
fn responder_stays_ended() {
    let responder = bound();
    let (responder, _) = responder.step(Event::Failed);
    let (responder, action) = responder.step(Event::Completed);
    assert_eq!(action, Action::Exit(Outcome::Failed(Operation::Receive)));
    let (responder, action) = responder.step(Event::Received(message(b"late")));
    assert_eq!(action, Action::Exit(Outcome::Failed(Operation::Receive)));
    let (responder, action) = responder.step(Event::Failed);
    assert_eq!(action, Action::Exit(Outcome::Failed(Operation::Receive)));
    assert_eq!(responder.stage(), ResponderStage::Terminated(Outcome::Failed(Operation::Receive)));
    assert_eq!(responder.endpoint(), "tcp://127.0.0.1:4321");
}

#[test]
fn responder_phases() {
    assert_eq!(ResponderStage::Opening.phase(), Phase::Unstarted);
    assert_eq!(ResponderStage::Announcing.phase(), Phase::SocketOpen);
    assert_eq!(ResponderStage::Binding.phase(), Phase::SocketOpen);
    assert_eq!(ResponderStage::Awaiting.phase(), Phase::Looping);
    assert_eq!(ResponderStage::Replying.phase(), Phase::Looping);
    assert_eq!(ResponderStage::Terminated(Outcome::Finished).phase(), Phase::Terminated);
    assert_eq!(
        ResponderStage::Terminated(Outcome::Failed(Operation::Bind)).phase(),
        Phase::Terminated
    );
}

#[test]
fn operations_are_described() {
    assert_eq!(Operation::OpenSocket.describe(), "opening the socket");
    assert_eq!(Operation::Print.describe(), "writing to the standard output");
    assert_eq!(Operation::Bind.describe(), "binding");
    assert_eq!(Operation::Connect.describe(), "connecting");
    assert_eq!(Operation::StartClock.describe(), "starting the clock");
    assert_eq!(Operation::Allocate.describe(), "making a message");
    assert_eq!(Operation::Send.describe(), "sending");
    assert_eq!(Operation::Receive.describe(), "receiving");
    assert_eq!(Operation::Report.describe(), "reporting");
}
