//! Requests of the application, and the calls on the protocol collaborators
//! that each of them stands for.

use vstd::prelude::*;
use vstd::string::*;
use crate::address::{check_peer_address, wellformed, Wellformed};

verus! {

/// A request of the application front end.
#[derive(Clone, Debug, PartialEq, Eq)]
pub enum Action {
    /// Register the location of a known node (its identifier, then the
    /// location) and start the DHT's own bootstrap.
    Bootstrap(String, String),
    /// Broadcast a payload on the shared topic.
    PublishMessage(Vec<u8>),
}

pub enum ActionView {
    Bootstrap(Seq<char>, Seq<char>),
    PublishMessage(Seq<u8>),
}

impl View for Action {
    type V = ActionView;

    open spec fn view(&self) -> ActionView {
        match self {
            Action::Bootstrap(peer, address) => ActionView::Bootstrap(peer@, address@),
            Action::PublishMessage(payload) => ActionView::PublishMessage(payload@),
        }
    }
}

impl DeepView for Action {
    type V = ActionView;

    open spec fn deep_view(&self) -> ActionView {
        self.view()
    }
}

/// One call on a protocol collaborator, for the driver to make.
#[derive(Clone, Debug, PartialEq, Eq)]
pub enum Command {
    /// DHT: add a location to the address book of a node.
    AddAddress { peer: String, address: String },
    /// DHT: refresh the routing table from the nodes now known.
    Bootstrap,
    /// DHT: look for the nodes closest to an identifier.
    GetClosestPeers { target: String },
    /// Gossip: publish a payload on a topic.
    Publish { topic: String, payload: Vec<u8> },
}

pub enum CommandView {
    AddAddress { peer: Seq<char>, address: Seq<char> },
    Bootstrap,
    GetClosestPeers { target: Seq<char> },
    Publish { topic: Seq<char>, payload: Seq<u8> },
}

impl View for Command {
    type V = CommandView;

    open spec fn view(&self) -> CommandView {
        match self {
            Command::AddAddress { peer, address } => CommandView::AddAddress {
                peer: peer@,
                address: address@,
            },
            Command::Bootstrap => CommandView::Bootstrap,
            Command::GetClosestPeers { target } => CommandView::GetClosestPeers {
                target: target@,
            },
            Command::Publish { topic, payload } => CommandView::Publish {
                topic: topic@,
                payload: payload@,
            },
        }
    }
}

impl DeepView for Command {
    type V = CommandView;

    open spec fn deep_view(&self) -> CommandView {
        self.view()
    }
}

/// Why a request had no effect, or less than it asked for. Such a failure is
/// reported to the operator and never stops the runtime.
#[derive(Clone, Debug, PartialEq, Eq)]
pub enum ActionDispatchError {
    /// The identifier of a `Bootstrap` request names no node.
    MalformedPeerId(String),
    /// The location of a `Bootstrap` request is no network location.
    MalformedAddress(String),
    /// A collaborator turned a command down, with its reason.
    Refused { command: Command, reason: String },
}

pub enum ActionDispatchErrorView {
    MalformedPeerId(Seq<char>),
    MalformedAddress(Seq<char>),
    Refused { command: CommandView, reason: Seq<char> },
}

impl View for ActionDispatchError {
    type V = ActionDispatchErrorView;

    open spec fn view(&self) -> ActionDispatchErrorView {
        match self {
            ActionDispatchError::MalformedPeerId(text) => ActionDispatchErrorView::MalformedPeerId(
                text@,
            ),
            ActionDispatchError::MalformedAddress(text) => {
                ActionDispatchErrorView::MalformedAddress(text@)
            },
            ActionDispatchError::Refused { command, reason } => ActionDispatchErrorView::Refused {
                command: command@,
                reason: reason@,
            },
        }
    }
}

impl DeepView for ActionDispatchError {
    type V = ActionDispatchErrorView;

    open spec fn deep_view(&self) -> ActionDispatchErrorView {
        self.view()
    }
}

/// The one topic of this network.
pub open spec fn topic_text() -> Seq<char> {
    "global"@
}

/// The one topic of this network: `global`.
pub fn topic() -> (name: String)
    ensures
        name@ == topic_text(),
{
    String::from_str("global")
}

/// What the parsers have to say of a request: of the two texts of a
/// `Bootstrap`; nothing stands in the way of a `PublishMessage`.
pub open spec fn verdict_on(action: ActionView) -> Wellformed {
    match action {
        ActionView::Bootstrap(peer, address) => wellformed(peer, address),
        ActionView::PublishMessage(_) => Wellformed { peer: true, address: true },
    }
}

/// The calls that a request stands for, in the order in which they are made,
/// or the reason why it stands for none.
///
/// A `Bootstrap` whose two texts are well-formed registers the location and
/// then, once, starts the bootstrap. One with a malformed text does neither;
/// the identifier is looked at first. A `PublishMessage` publishes its
/// payload, whatever it holds, on the shared topic.
pub open spec fn dispatch_spec(action: ActionView, verdict: Wellformed) -> Result<
    Seq<CommandView>,
    ActionDispatchErrorView,
> {
    match action {
        ActionView::Bootstrap(peer, address) => {
            if !verdict.peer {
                Err(ActionDispatchErrorView::MalformedPeerId(peer))
            } else if !verdict.address {
                Err(ActionDispatchErrorView::MalformedAddress(address))
            } else {
                Ok(seq![CommandView::AddAddress { peer, address }, CommandView::Bootstrap])
            }
        },
        ActionView::PublishMessage(payload) => Ok(
            seq![CommandView::Publish { topic: topic_text(), payload }],
        ),
    }
}

/// The model of what `dispatch` returns.
pub open spec fn dispatched_view(
    outcome: Result<Vec<Command>, ActionDispatchError>,
) -> Result<Seq<CommandView>, ActionDispatchErrorView> {
    match outcome {
        Ok(commands) => Ok(commands.deep_view()),
        Err(error) => Err(error@),
    }
}

impl Action {
    /// Turns the request into calls, given what the parsers said of its
    /// texts.
    pub fn dispatch_checked(self, verdict: Wellformed) -> (outcome: Result<
        Vec<Command>,
        ActionDispatchError,
    >)
        ensures
            dispatched_view(outcome) == dispatch_spec(self@, verdict),
    {
        match self {
            Action::Bootstrap(peer, address) => {
                if !verdict.peer {
                    Err(ActionDispatchError::MalformedPeerId(peer))
                } else if !verdict.address {
                    Err(ActionDispatchError::MalformedAddress(address))
                } else {
                    let mut commands: Vec<Command> = Vec::new();
                    commands.push(Command::AddAddress { peer, address });
                    commands.push(Command::Bootstrap);
                    assert(commands.deep_view() =~= seq![
                        CommandView::AddAddress { peer: peer@, address: address@ },
                        CommandView::Bootstrap,
                    ]);
                    Ok(commands)
                }
            },
            Action::PublishMessage(payload) => {
                let mut commands: Vec<Command> = Vec::new();
                commands.push(Command::Publish { topic: topic(), payload });
                assert(commands.deep_view() =~= seq![
                    CommandView::Publish { topic: topic_text(), payload: payload@ },
                ]);
                Ok(commands)
            },
        }
    }

    /// Turns the request into calls. The two texts of a `Bootstrap` are put
    /// to the parsers first.
    pub fn dispatch(self) -> (outcome: Result<Vec<Command>, ActionDispatchError>)
        ensures
            dispatched_view(outcome) == dispatch_spec(self@, verdict_on(self@)),
    {
        let verdict = self.verdict();
        self.dispatch_checked(verdict)
    }

    /// Puts the texts of the request to the parsers.
    pub fn verdict(&self) -> (verdict: Wellformed)
        ensures
            verdict == verdict_on(self@),
    {
        match self {
            Action::Bootstrap(peer, address) => check_peer_address(
                peer.as_str(),
                address.as_str(),
            ),
            Action::PublishMessage(_) => Wellformed { peer: true, address: true },
        }
    }
}

/// The name under which a command is reported.
pub open spec fn command_name(command: CommandView) -> Seq<char> {
    match command {
        CommandView::AddAddress { .. } => "add_address"@,
        CommandView::Bootstrap => "bootstrap"@,
        CommandView::GetClosestPeers { .. } => "get_closest_peers"@,
        CommandView::Publish { .. } => "publish"@,
    }
}

/// The line that reports a failure to the operator.
pub open spec fn dispatch_error_text(error: ActionDispatchErrorView) -> Seq<char> {
    match error {
        ActionDispatchErrorView::MalformedPeerId(text) => "invalid peer id: "@ + text,
        ActionDispatchErrorView::MalformedAddress(text) => "invalid address: "@ + text,
        ActionDispatchErrorView::Refused { command, reason } => command_name(command)
            + " failed: "@ + reason,
    }
}

impl Command {
    /// The name under which the command is reported.
    pub fn name(&self) -> (name: &'static str)
        ensures
            name@ == command_name(self@),
    {
        match self {
            Command::AddAddress { .. } => "add_address",
            Command::Bootstrap => "bootstrap",
            Command::GetClosestPeers { .. } => "get_closest_peers",
            Command::Publish { .. } => "publish",
        }
    }
}

impl ActionDispatchError {
    /// The line that reports the failure to the operator.
    pub fn message(&self) -> (line: String)
        ensures
            line@ == dispatch_error_text(self@),
    {
        match self {
            ActionDispatchError::MalformedPeerId(text) => {
                let mut line = String::from_str("invalid peer id: ");
                line.append(text.as_str());
                line
            },
            ActionDispatchError::MalformedAddress(text) => {
                let mut line = String::from_str("invalid address: ");
                line.append(text.as_str());
                line
            },
            ActionDispatchError::Refused { command, reason } => {
                let mut line = String::from_str(command.name());
                line.append(" failed: ");
                line.append(reason.as_str());
                line
            },
        }
    }
}

} // verus!
