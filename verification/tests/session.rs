use civ5_p2p::session::{listen_address, plan_session};
use civ5_p2p::{Civ5p2p, SessionPlan, SetupError};

#[test]
fn the_node_listens_on_every_interface() {
    assert_eq!(listen_address(), "/ip4/0.0.0.0/tcp/0");
}

#[test]
fn the_plan_of_a_node() {
    let node = Civ5p2p::new(Civ5p2p::new_keypair());
    assert_eq!(
        node.session_plan(),
        Ok(SessionPlan {
            node_id: node.node_id().clone(),
            protocol_version: "/civ5/0.1.0".to_string(),
            agent_version: "civ5".to_string(),
            topic: "global".to_string(),
            listen_on: "/ip4/0.0.0.0/tcp/0".to_string(),
        })
    );
}

#[test]
fn the_plan_given_the_verdict() {
    let node = Civ5p2p::new(Civ5p2p::new_keypair());
    assert_eq!(node.session_plan_checked(true), node.session_plan());
    assert_eq!(
        node.session_plan_checked(false),
        Err(SetupError::ListenAddress("/ip4/0.0.0.0/tcp/0".to_string()))
    );
}

#[test]
fn plan_for_a_given_identifier() {
    assert_eq!(
        plan_session(&"nodeA".to_string(), true),
        Ok(SessionPlan {
            node_id: "nodeA".to_string(),
            protocol_version: "/civ5/0.1.0".to_string(),
            agent_version: "civ5".to_string(),
            topic: "global".to_string(),
            listen_on: "/ip4/0.0.0.0/tcp/0".to_string(),
        })
    );
    assert_eq!(
        plan_session(&"nodeA".to_string(), false),
        Err(SetupError::ListenAddress("/ip4/0.0.0.0/tcp/0".to_string()))
    );
}

#[test]
fn setup_error_lines() {
    assert_eq!(
        SetupError::ListenAddress("/ip4/0.0.0.0/tcp/0".to_string()).message(),
        "invalid listen address: /ip4/0.0.0.0/tcp/0"
    );
    assert_eq!(SetupError::Transport("no tcp".to_string()).message(), "transport: no tcp");
    assert_eq!(SetupError::Bind("address in use".to_string()).message(), "listen: address in use");
}

#[test]
fn search_for_a_wellformed_target() {
    let target = "QmYyQSo1c1Ym7orWxLYvCrM2EmxFTANf8wXmmE7DWjhx5N".to_string();
    assert_eq!(
        civ5_p2p::session::plan_search(target.clone()),
        Ok(civ5_p2p::Command::GetClosestPeers { target })
    );
}

#[test]
fn search_for_a_malformed_target_fails_start_up() {
    assert_eq!(
        civ5_p2p::session::plan_search("peerX".to_string()),
        Err(SetupError::MalformedPeerId("peerX".to_string()))
    );
    assert_eq!(
        civ5_p2p::session::plan_search(String::new()),
        Err(SetupError::MalformedPeerId(String::new()))
    );
}

#[test]
fn search_given_the_verdict() {
    assert_eq!(
        civ5_p2p::session::plan_search_checked("peerX".to_string(), true),
        Ok(civ5_p2p::Command::GetClosestPeers { target: "peerX".to_string() })
    );
    assert_eq!(
        civ5_p2p::session::plan_search_checked("peerX".to_string(), false),
        Err(SetupError::MalformedPeerId("peerX".to_string()))
    );
}

#[test]
fn search_for_the_identifier_of_a_fresh_node() {
    let target = Civ5p2p::new(Civ5p2p::new_keypair()).node_id().clone();
    assert_eq!(
        civ5_p2p::session::plan_search(target.clone()),
        Ok(civ5_p2p::Command::GetClosestPeers { target })
    );
}

#[test]
fn malformed_identifier_line() {
    assert_eq!(
        SetupError::MalformedPeerId("peerX".to_string()).message(),
        "invalid peer id: peerX"
    );
}
