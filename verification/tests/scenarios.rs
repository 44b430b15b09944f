use civ5_p2p::address::Wellformed;
use civ5_p2p::{
    Action, ActionDispatchError, ActionPoll, Civ5p2p, CliOutcome, Command, CommandLineInterface,
    Event, Notice, Output, Phase, ProtocolEvent, ReadOutcome, Request, SessionPoll,
};

const PEER: &str = "QmYyQSo1c1Ym7orWxLYvCrM2EmxFTANf8wXmmE7DWjhx5N";
const OTHER_PEER: &str = "QmcZf59bWwK5XFi76CZX8cbJ4BhTzzA3gU1ZjYZcYW3dwt";
const ADDRESS_ONE: &str = "/ip4/10.0.0.1/tcp/4001";
const ADDRESS_TWO: &str = "/ip4/10.0.0.2/tcp/4001";

/// Stands for the collaborators: writes down every call in the order made.
fn record(calls: &mut Vec<Command>, out: Output) {
    calls.extend(out.commands);
}

fn add(peer: &str, address: &str) -> Command {
    Command::AddAddress { peer: peer.to_string(), address: address.to_string() }
}

fn publish(payload: &[u8]) -> Command {
    Command::Publish { topic: "global".to_string(), payload: payload.to_vec() }
}

#[test]
fn requests_reach_the_collaborators_in_the_order_submitted() {
    let mut node = Civ5p2p::new(Civ5p2p::new_keypair());
    let submitted = vec![
        Action::PublishMessage(vec![1]),
        Action::Bootstrap(PEER.to_string(), ADDRESS_ONE.to_string()),
        Action::PublishMessage(vec![]),
        Action::Bootstrap(OTHER_PEER.to_string(), ADDRESS_TWO.to_string()),
        Action::PublishMessage(vec![1]),
    ];
    let mut calls = Vec::new();
    for action in submitted {
        assert_eq!(node.next_request(), Request::PollActions);
        let out = node.on_actions(ActionPoll::Ready(action));
        record(&mut calls, out);
    }
    let out = node.on_actions(ActionPoll::Empty);
    record(&mut calls, out);
    assert_eq!(node.next_request(), Request::PollSession);
    assert_eq!(
        calls,
        vec![
            publish(&[1]),
            add(PEER, ADDRESS_ONE),
            Command::Bootstrap,
            publish(&[]),
            add(OTHER_PEER, ADDRESS_TWO),
            Command::Bootstrap,
            publish(&[1]),
        ]
    );
}

#[test]
fn bootstrap_registers_the_address_before_the_session_is_polled() {
    let mut node = Civ5p2p::new(Civ5p2p::new_keypair());
    let mut calls = Vec::new();
    let out = node.on_actions(ActionPoll::Ready(Action::Bootstrap(
        PEER.to_string(),
        ADDRESS_ONE.to_string(),
    )));
    record(&mut calls, out);
    let out = node.on_actions(ActionPoll::Empty);
    record(&mut calls, out);
    assert_eq!(calls, vec![add(PEER, ADDRESS_ONE), Command::Bootstrap]);
    let out = node.on_session(SessionPoll::Ready(ProtocolEvent::PeerInfo {
        peer: OTHER_PEER.to_string(),
        addresses: vec![ADDRESS_TWO.to_string()],
    }));
    record(&mut calls, out);
    assert_eq!(
        calls,
        vec![add(PEER, ADDRESS_ONE), Command::Bootstrap, add(OTHER_PEER, ADDRESS_TWO)]
    );
}

#[test]
fn two_bootstraps_of_one_peer_register_both_addresses() {
    let mut node = Civ5p2p::new(Civ5p2p::new_keypair());
    let mut calls = Vec::new();
    let out = node.on_actions(ActionPoll::Ready(Action::Bootstrap(
        PEER.to_string(),
        ADDRESS_ONE.to_string(),
    )));
    record(&mut calls, out);
    let out = node.on_actions(ActionPoll::Ready(Action::Bootstrap(
        PEER.to_string(),
        ADDRESS_TWO.to_string(),
    )));
    record(&mut calls, out);
    assert_eq!(
        calls,
        vec![
            add(PEER, ADDRESS_ONE),
            Command::Bootstrap,
            add(PEER, ADDRESS_TWO),
            Command::Bootstrap,
        ]
    );
    let registered = calls.iter().filter(|c| matches!(c, Command::AddAddress { .. })).count();
    let bootstraps = calls.iter().filter(|c| matches!(c, Command::Bootstrap)).count();
    assert_eq!(registered, 2);
    assert_eq!(bootstraps, 2);
}

#[test]
fn malformed_address_from_the_command_line_is_reported_and_the_runtime_goes_on() {
    let cli = CommandLineInterface::new(Civ5p2p::new_keypair());
    let mut node = Civ5p2p::new(Civ5p2p::new_keypair());

    let step = cli.on_read(ReadOutcome::Line("bootstrap peerX not-an-address".to_string()));
    assert_eq!(step.exit, None);
    let action = match step.outcome {
        Some(CliOutcome::Submit(action)) => action,
        other => panic!("no request: {:?}", other),
    };
    let out = node.on_actions(ActionPoll::Ready(action));
    assert!(out.commands.is_empty());
    assert!(out.events.is_empty());
    assert_eq!(
        out.notices,
        vec![Notice::DispatchFailed(ActionDispatchError::MalformedPeerId("peerX".to_string()))]
    );
    assert_eq!(out.notices[0].message(), "invalid peer id: peerX");
    assert_eq!(node.phase(), Phase::Draining);

    let line = format!("bootstrap {} not-an-address", PEER);
    let action = match cli.on_read(ReadOutcome::Line(line)).outcome {
        Some(CliOutcome::Submit(action)) => action,
        other => panic!("no request: {:?}", other),
    };
    let out = node.on_actions(ActionPoll::Ready(action));
    assert!(out.commands.is_empty());
    assert_eq!(
        out.notices,
        vec![Notice::DispatchFailed(ActionDispatchError::MalformedAddress(
            "not-an-address".to_string()
        ))]
    );
    assert_eq!(out.notices[0].message(), "invalid address: not-an-address");
    assert_eq!(node.next_request(), Request::PollActions);
    assert!(!node.is_closing());

    let line = format!("bootstrap {} {}", PEER, ADDRESS_ONE);
    let action = match cli.on_read(ReadOutcome::Line(line)).outcome {
        Some(CliOutcome::Submit(action)) => action,
        other => panic!("no request: {:?}", other),
    };
    let out = node.on_actions(ActionPoll::Ready(action));
    assert_eq!(out.commands, vec![add(PEER, ADDRESS_ONE), Command::Bootstrap]);
    assert!(out.notices.is_empty());
}

#[test]
fn an_idle_node_announces_its_listening_address_exactly_once() {
    let mut node = Civ5p2p::new(Civ5p2p::new_keypair());
    let id = node.node_id().clone();
    let address = "/ip4/127.0.0.1/tcp/40123".to_string();
    let mut notices = Vec::new();
    let mut events = Vec::new();
    let mut calls = Vec::new();
    // The address is bound only after the first turn.
    let listeners = [vec![], vec![address.clone()], vec![address.clone()], vec![address.clone()]];
    for bound in listeners {
        assert_eq!(node.next_request(), Request::PollActions);
        let out = node.on_actions(ActionPoll::Empty);
        assert_eq!(out, Output { commands: vec![], events: vec![], notices: vec![] });
        assert_eq!(node.next_request(), Request::PollSession);
        let out = node.on_session(SessionPoll::Idle(bound));
        notices.extend(out.notices);
        events.extend(out.events);
        calls.extend(out.commands);
        assert_eq!(node.next_request(), Request::Suspend);
        node.wake();
    }
    assert_eq!(notices, vec![Notice::Listening { node: id.clone(), address: address.clone() }]);
    assert_eq!(notices[0].message(), format!("Listening on {} {}", id, address));
    assert_eq!(events, vec![Event::ListeningAddress { address }]);
    assert!(calls.is_empty());
}

#[test]
fn dropping_the_sender_ends_the_runtime_within_the_turn() {
    let mut node = Civ5p2p::new(Civ5p2p::new_keypair());
    // A first, ordinary turn.
    node.on_actions(ActionPoll::Empty);
    node.on_session(SessionPoll::Idle(vec![]));
    assert_eq!(node.next_request(), Request::Suspend);
    // The sender is dropped; the task is woken.
    node.wake();
    let mut polls = 0;
    let mut turns = 0;
    loop {
        match node.next_request() {
            Request::PollActions => {
                node.on_actions(ActionPoll::Closed);
            }
            Request::PollSession => {
                polls += 1;
                let polled = if polls < 4 {
                    SessionPoll::Ready(ProtocolEvent::Housekeeping)
                } else {
                    SessionPoll::Idle(vec![])
                };
                node.on_session(polled);
            }
            Request::Suspend => {
                turns += 1;
                node.wake();
            }
            Request::Finish => break,
        }
        assert!(polls <= 4);
    }
    assert_eq!(turns, 0);
    assert_eq!(polls, 4);
    assert_eq!(node.phase(), Phase::Terminated);
}

#[test]
fn two_bootstraps_of_peer_x_given_that_the_texts_are_accepted() {
    let mut node = Civ5p2p::new(Civ5p2p::new_keypair());
    let accepted = Wellformed { peer: true, address: true };
    let mut calls = Vec::new();
    for address in ["addr1", "addr2"] {
        let out = node.on_actions_checked(
            ActionPoll::Ready(Action::Bootstrap("peerX".to_string(), address.to_string())),
            accepted,
        );
        assert!(out.notices.is_empty());
        record(&mut calls, out);
    }
    assert_eq!(
        calls,
        vec![
            add("peerX", "addr1"),
            Command::Bootstrap,
            add("peerX", "addr2"),
            Command::Bootstrap,
        ]
    );
}
