//! How the network session is composed at start-up, and what may keep it
//! from starting.

use vstd::prelude::*;
use vstd::string::*;
use crate::action::{topic, topic_text, Command, CommandView};
use crate::address::{is_peer_id, parses_as_peer_id};

verus! {

/// The protocol version that the identity exchange presents.
pub open spec fn protocol_version_text() -> Seq<char> {
    "/civ5/0.1.0"@
}

/// The agent name that the identity exchange presents.
pub open spec fn agent_version_text() -> Seq<char> {
    "civ5"@
}

/// Where the node listens: every interface, a port of the system's choice.
pub open spec fn listen_text() -> Seq<char> {
    "/ip4/0.0.0.0/tcp/0"@
}

/// Where the node listens: every interface, a port of the system's choice.
pub fn listen_address() -> (text: &'static str)
    ensures
        text@ == listen_text(),
{
    "/ip4/0.0.0.0/tcp/0"
}

/// What the driver needs to compose the session: the DHT store is keyed by
/// `node_id`, the identity exchange presents the two versions, gossip
/// subscribes to `topic`, and the session listens on `listen_on`.
#[derive(Clone, Debug, PartialEq, Eq)]
pub struct SessionPlan {
    pub node_id: String,
    pub protocol_version: String,
    pub agent_version: String,
    pub topic: String,
    pub listen_on: String,
}

pub struct SessionPlanView {
    pub node_id: Seq<char>,
    pub protocol_version: Seq<char>,
    pub agent_version: Seq<char>,
    pub topic: Seq<char>,
    pub listen_on: Seq<char>,
}

impl View for SessionPlan {
    type V = SessionPlanView;

    open spec fn view(&self) -> SessionPlanView {
        SessionPlanView {
            node_id: self.node_id@,
            protocol_version: self.protocol_version@,
            agent_version: self.agent_version@,
            topic: self.topic@,
            listen_on: self.listen_on@,
        }
    }
}

/// Why the session did not start. Any of these ends the attempt: nothing is
/// tried again.
#[derive(Clone, Debug, PartialEq, Eq)]
pub enum SetupError {
    /// An identifier given at start-up names no node.
    MalformedPeerId(String),
    /// The location to listen on is no network location.
    ListenAddress(String),
    /// The transport stack could not be built; the driver's reason.
    Transport(String),
    /// The session could not bind the location; the driver's reason.
    Bind(String),
}

pub enum SetupErrorView {
    MalformedPeerId(Seq<char>),
    ListenAddress(Seq<char>),
    Transport(Seq<char>),
    Bind(Seq<char>),
}

impl View for SetupError {
    type V = SetupErrorView;

    open spec fn view(&self) -> SetupErrorView {
        match self {
            SetupError::MalformedPeerId(text) => SetupErrorView::MalformedPeerId(text@),
            SetupError::ListenAddress(text) => SetupErrorView::ListenAddress(text@),
            SetupError::Transport(reason) => SetupErrorView::Transport(reason@),
            SetupError::Bind(reason) => SetupErrorView::Bind(reason@),
        }
    }
}

/// The line that tells the operator why start-up was given up.
pub open spec fn setup_error_text(error: SetupErrorView) -> Seq<char> {
    match error {
        SetupErrorView::MalformedPeerId(text) => "invalid peer id: "@ + text,
        SetupErrorView::ListenAddress(text) => "invalid listen address: "@ + text,
        SetupErrorView::Transport(reason) => "transport: "@ + reason,
        SetupErrorView::Bind(reason) => "listen: "@ + reason,
    }
}

impl SetupError {
    /// The line that tells the operator why start-up was given up.
    pub fn message(&self) -> (line: String)
        ensures
            line@ == setup_error_text(self@),
    {
        match self {
            SetupError::MalformedPeerId(text) => {
                let mut line = String::from_str("invalid peer id: ");
                line.append(text.as_str());
                line
            },
            SetupError::ListenAddress(text) => {
                let mut line = String::from_str("invalid listen address: ");
                line.append(text.as_str());
                line
            },
            SetupError::Transport(reason) => {
                let mut line = String::from_str("transport: ");
                line.append(reason.as_str());
                line
            },
            SetupError::Bind(reason) => {
                let mut line = String::from_str("listen: ");
                line.append(reason.as_str());
                line
            },
        }
    }
}

/// The plan for a node, given whether the location to listen on parses.
pub open spec fn plan_spec(node_id: Seq<char>, listen_ok: bool) -> Result<
    SessionPlanView,
    SetupErrorView,
> {
    if listen_ok {
        Ok(
            SessionPlanView {
                node_id,
                protocol_version: protocol_version_text(),
                agent_version: agent_version_text(),
                topic: topic_text(),
                listen_on: listen_text(),
            },
        )
    } else {
        Err(SetupErrorView::ListenAddress(listen_text()))
    }
}

/// The model of a planning result.
pub open spec fn planned_view(outcome: Result<SessionPlan, SetupError>) -> Result<
    SessionPlanView,
    SetupErrorView,
> {
    match outcome {
        Ok(plan) => Ok(plan@),
        Err(error) => Err(error@),
    }
}

/// Draws up the plan for a node, given whether the location to listen on
/// parses.
pub fn plan_session(node_id: &String, listen_ok: bool) -> (outcome: Result<
    SessionPlan,
    SetupError,
>)
    ensures
        planned_view(outcome) == plan_spec(node_id@, listen_ok),
{
    if listen_ok {
        Ok(
            SessionPlan {
                node_id: node_id.clone(),
                protocol_version: String::from_str("/civ5/0.1.0"),
                agent_version: String::from_str("civ5"),
                topic: topic(),
                listen_on: String::from_str(listen_address()),
            },
        )
    } else {
        Err(SetupError::ListenAddress(String::from_str(listen_address())))
    }
}

/// The call that starts a search for the nodes closest to `target`, given
/// whether `target` names a node. A search can only be asked for at
/// start-up, so a malformed target is a failure of start-up.
pub open spec fn search_spec(target: Seq<char>, target_ok: bool) -> Result<
    CommandView,
    SetupErrorView,
> {
    if target_ok {
        Ok(CommandView::GetClosestPeers { target })
    } else {
        Err(SetupErrorView::MalformedPeerId(target))
    }
}

/// The model of the result of planning a search.
pub open spec fn searched_view(outcome: Result<Command, SetupError>) -> Result<
    CommandView,
    SetupErrorView,
> {
    match outcome {
        Ok(command) => Ok(command@),
        Err(error) => Err(error@),
    }
}

/// Plans the search for the nodes closest to `target`, given whether
/// `target` names a node.
pub fn plan_search_checked(target: String, target_ok: bool) -> (outcome: Result<
    Command,
    SetupError,
>)
    ensures
        searched_view(outcome) == search_spec(target@, target_ok),
{
    if target_ok {
        Ok(Command::GetClosestPeers { target })
    } else {
        Err(SetupError::MalformedPeerId(target))
    }
}

/// Plans the search for the nodes closest to `target`. It fails if `target`
/// names no node, and only then.
pub fn plan_search(target: String) -> (outcome: Result<Command, SetupError>)
    ensures
        searched_view(outcome) == search_spec(target@, is_peer_id(target@)),
{
    let target_ok = parses_as_peer_id(target.as_str());
    plan_search_checked(target, target_ok)
}

} // verus!
