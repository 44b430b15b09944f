use civ5_p2p::action::topic;
use civ5_p2p::address::Wellformed;
use civ5_p2p::{Action, ActionDispatchError, Command};

const PEER: &str = "QmYyQSo1c1Ym7orWxLYvCrM2EmxFTANf8wXmmE7DWjhx5N";
const ADDRESS: &str = "/ip4/127.0.0.1/tcp/4001";

fn bootstrap_of(peer: &str, address: &str) -> Action {
    Action::Bootstrap(peer.to_string(), address.to_string())
}

fn accepted() -> Wellformed {
    Wellformed { peer: true, address: true }
}

#[test]
fn topic_is_global() {
    assert_eq!(topic(), "global");
}

#[test]
fn bootstrap_registers_then_bootstraps() {
    let commands = bootstrap_of("peerX", "addr1").dispatch_checked(accepted());
    assert_eq!(
        commands,
        Ok(vec![
            Command::AddAddress { peer: "peerX".to_string(), address: "addr1".to_string() },
            Command::Bootstrap,
        ])
    );
}

#[test]
fn bootstrap_with_malformed_peer_does_nothing() {
    let outcome = bootstrap_of("peerX", "addr1")
        .dispatch_checked(Wellformed { peer: false, address: true });
    assert_eq!(outcome, Err(ActionDispatchError::MalformedPeerId("peerX".to_string())));
}

#[test]
fn bootstrap_with_malformed_address_does_nothing() {
    let outcome = bootstrap_of("peerX", "addr1")
        .dispatch_checked(Wellformed { peer: true, address: false });
    assert_eq!(outcome, Err(ActionDispatchError::MalformedAddress("addr1".to_string())));
}

#[test]
fn malformed_peer_is_reported_before_malformed_address() {
    let outcome = bootstrap_of("peerX", "addr1")
        .dispatch_checked(Wellformed { peer: false, address: false });
    assert_eq!(outcome, Err(ActionDispatchError::MalformedPeerId("peerX".to_string())));
}

#[test]
fn publish_goes_to_the_shared_topic() {
    let outcome = Action::PublishMessage(vec![1, 2, 3]).dispatch_checked(accepted());
    assert_eq!(
        outcome,
        Ok(vec![Command::Publish { topic: "global".to_string(), payload: vec![1, 2, 3] }])
    );
}

#[test]
fn publish_ignores_the_verdict() {
    let outcome = Action::PublishMessage(vec![7])
        .dispatch_checked(Wellformed { peer: false, address: false });
    assert_eq!(
        outcome,
        Ok(vec![Command::Publish { topic: "global".to_string(), payload: vec![7] }])
    );
}

#[test]
fn empty_payload_is_forwarded_unchanged() {
    let outcome = Action::PublishMessage(Vec::new()).dispatch();
    assert_eq!(
        outcome,
        Ok(vec![Command::Publish { topic: "global".to_string(), payload: Vec::new() }])
    );
}

#[test]
fn payload_is_forwarded_byte_for_byte() {
    let payload: Vec<u8> = (0..=255).collect();
    let outcome = Action::PublishMessage(payload.clone()).dispatch();
    assert_eq!(outcome, Ok(vec![Command::Publish { topic: "global".to_string(), payload }]));
}

#[test]
fn dispatch_asks_the_parsers() {
    assert_eq!(
        bootstrap_of(PEER, ADDRESS).dispatch(),
        Ok(vec![
            Command::AddAddress { peer: PEER.to_string(), address: ADDRESS.to_string() },
            Command::Bootstrap,
        ])
    );
    assert_eq!(
        bootstrap_of("peerX", ADDRESS).dispatch(),
        Err(ActionDispatchError::MalformedPeerId("peerX".to_string()))
    );
    assert_eq!(
        bootstrap_of(PEER, "not-an-address").dispatch(),
        Err(ActionDispatchError::MalformedAddress("not-an-address".to_string()))
    );
    assert_eq!(
        bootstrap_of("peerX", "not-an-address").dispatch(),
        Err(ActionDispatchError::MalformedPeerId("peerX".to_string()))
    );
}

#[test]
fn verdict_of_requests() {
    assert_eq!(bootstrap_of(PEER, ADDRESS).verdict(), accepted());
    assert_eq!(
        bootstrap_of(PEER, "not-an-address").verdict(),
        Wellformed { peer: true, address: false }
    );
    assert_eq!(
        bootstrap_of("peerX", ADDRESS).verdict(),
        Wellformed { peer: false, address: true }
    );
    assert_eq!(Action::PublishMessage(vec![0]).verdict(), accepted());
}

#[test]
fn command_names() {
    assert_eq!(
        Command::AddAddress { peer: "p".to_string(), address: "a".to_string() }.name(),
        "add_address"
    );
    assert_eq!(Command::Bootstrap.name(), "bootstrap");
    assert_eq!(Command::GetClosestPeers { target: "p".to_string() }.name(), "get_closest_peers");
    assert_eq!(Command::Publish { topic: "t".to_string(), payload: vec![] }.name(), "publish");
}

#[test]
fn dispatch_error_messages() {
    assert_eq!(
        ActionDispatchError::MalformedPeerId("peerX".to_string()).message(),
        "invalid peer id: peerX"
    );
    assert_eq!(
        ActionDispatchError::MalformedAddress("not-an-address".to_string()).message(),
        "invalid address: not-an-address"
    );
    assert_eq!(
        ActionDispatchError::Refused {
            command: Command::Bootstrap,
            reason: "no known peers".to_string()
        }
        .message(),
        "bootstrap failed: no known peers"
    );
    assert_eq!(
        ActionDispatchError::Refused {
            command: Command::Publish { topic: "global".to_string(), payload: vec![1] },
            reason: "insufficient peers".to_string()
        }
        .message(),
        "publish failed: insufficient peers"
    );
    assert_eq!(
        ActionDispatchError::Refused {
            command: Command::AddAddress { peer: "p".to_string(), address: "a".to_string() },
            reason: String::new()
        }
        .message(),
        "add_address failed: "
    );
}
