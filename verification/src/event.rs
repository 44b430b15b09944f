//! What the network session reports, and what of it reaches the
//! application, the collaborators and the operator.

use vstd::prelude::*;
use vstd::string::*;
use crate::action::{
    dispatch_error_text, ActionDispatchError, ActionDispatchErrorView, Command, CommandView,
};
use crate::text::{decimal, decimal_string};

verus! {

/// The result of one liveness probe.
#[derive(Clone, Debug, PartialEq, Eq)]
pub enum Probe {
    /// The node answered; the round trip took so many milliseconds.
    Rtt(u128),
    /// The node probed us and got its answer.
    Pong,
    /// The node did not answer in time.
    Timeout,
    /// The probe failed for another reason.
    Failure(String),
}

pub enum ProbeView {
    Rtt(nat),
    Pong,
    Timeout,
    Failure(Seq<char>),
}

impl View for Probe {
    type V = ProbeView;

    open spec fn view(&self) -> ProbeView {
        match self {
            Probe::Rtt(millis) => ProbeView::Rtt(*millis as nat),
            Probe::Pong => ProbeView::Pong,
            Probe::Timeout => ProbeView::Timeout,
            Probe::Failure(error) => ProbeView::Failure(error@),
        }
    }
}

impl Probe {
    /// A second value with the same content.
    pub fn duplicate(&self) -> (copy: Probe)
        ensures
            copy@ == self@,
    {
        match self {
            Probe::Rtt(millis) => Probe::Rtt(*millis),
            Probe::Pong => Probe::Pong,
            Probe::Timeout => Probe::Timeout,
            Probe::Failure(error) => Probe::Failure(error.clone()),
        }
    }
}

/// A low-level occurrence in the network session, tagged by the protocol it
/// comes from.
#[derive(Clone, Debug, PartialEq, Eq)]
pub enum ProtocolEvent {
    /// DHT: the routing table now holds this node, at these locations.
    Routing { peer: String, addresses: Vec<String> },
    /// Gossip: a message on the shared topic was delivered.
    Message { sender: String, payload: Vec<u8> },
    /// Liveness: a probe of this node ended.
    Probe { peer: String, outcome: Probe },
    /// Identity exchange: a connected node told where it listens.
    PeerInfo { peer: String, addresses: Vec<String> },
    /// Anything else: bookkeeping of the session itself.
    Housekeeping,
}

pub enum ProtocolEventView {
    Routing { peer: Seq<char>, addresses: Seq<Seq<char>> },
    Message { sender: Seq<char>, payload: Seq<u8> },
    Probe { peer: Seq<char>, outcome: ProbeView },
    PeerInfo { peer: Seq<char>, addresses: Seq<Seq<char>> },
    Housekeeping,
}

impl View for ProtocolEvent {
    type V = ProtocolEventView;

    open spec fn view(&self) -> ProtocolEventView {
        match self {
            ProtocolEvent::Routing { peer, addresses } => ProtocolEventView::Routing {
                peer: peer@,
                addresses: addresses.deep_view(),
            },
            ProtocolEvent::Message { sender, payload } => ProtocolEventView::Message {
                sender: sender@,
                payload: payload@,
            },
            ProtocolEvent::Probe { peer, outcome } => ProtocolEventView::Probe {
                peer: peer@,
                outcome: outcome@,
            },
            ProtocolEvent::PeerInfo { peer, addresses } => ProtocolEventView::PeerInfo {
                peer: peer@,
                addresses: addresses.deep_view(),
            },
            ProtocolEvent::Housekeeping => ProtocolEventView::Housekeeping,
        }
    }
}

/// A notification to the application front end.
#[derive(Clone, Debug, PartialEq, Eq)]
pub enum Event {
    /// A node became known, with the locations it can be reached at.
    PeerDiscovered { peer: String, addresses: Vec<String> },
    /// A message arrived on the shared topic.
    MessageReceived { sender: String, payload: Vec<u8> },
    /// A probe of a node succeeded or failed.
    Liveness { peer: String, outcome: Probe },
    /// The node now listens at this location.
    ListeningAddress { address: String },
}

pub enum EventView {
    PeerDiscovered { peer: Seq<char>, addresses: Seq<Seq<char>> },
    MessageReceived { sender: Seq<char>, payload: Seq<u8> },
    Liveness { peer: Seq<char>, outcome: ProbeView },
    ListeningAddress { address: Seq<char> },
}

impl View for Event {
    type V = EventView;

    open spec fn view(&self) -> EventView {
        match self {
            Event::PeerDiscovered { peer, addresses } => EventView::PeerDiscovered {
                peer: peer@,
                addresses: addresses.deep_view(),
            },
            Event::MessageReceived { sender, payload } => EventView::MessageReceived {
                sender: sender@,
                payload: payload@,
            },
            Event::Liveness { peer, outcome } => EventView::Liveness {
                peer: peer@,
                outcome: outcome@,
            },
            Event::ListeningAddress { address } => EventView::ListeningAddress {
                address: address@,
            },
        }
    }
}

impl DeepView for Event {
    type V = EventView;

    open spec fn deep_view(&self) -> EventView {
        self.view()
    }
}

/// A line for the operator: what the runtime reports out of band.
#[derive(Clone, Debug, PartialEq, Eq)]
pub enum Notice {
    /// The sender of requests is gone: the runtime is shutting down.
    ActionsClosed,
    /// The node, by its identifier, listens at this location.
    Listening { node: String, address: String },
    /// A probe of a node ended.
    Probe { peer: String, outcome: Probe },
    /// A request failed; the runtime goes on.
    DispatchFailed(ActionDispatchError),
}

pub enum NoticeView {
    ActionsClosed,
    Listening { node: Seq<char>, address: Seq<char> },
    Probe { peer: Seq<char>, outcome: ProbeView },
    DispatchFailed(ActionDispatchErrorView),
}

impl View for Notice {
    type V = NoticeView;

    open spec fn view(&self) -> NoticeView {
        match self {
            Notice::ActionsClosed => NoticeView::ActionsClosed,
            Notice::Listening { node, address } => NoticeView::Listening {
                node: node@,
                address: address@,
            },
            Notice::Probe { peer, outcome } => NoticeView::Probe { peer: peer@, outcome: outcome@ },
            Notice::DispatchFailed(error) => NoticeView::DispatchFailed(error@),
        }
    }
}

impl DeepView for Notice {
    type V = NoticeView;

    open spec fn deep_view(&self) -> NoticeView {
        self.view()
    }
}

/// The line that reports a probe.
pub open spec fn probe_text(peer: Seq<char>, outcome: ProbeView) -> Seq<char> {
    match outcome {
        ProbeView::Rtt(millis) => "ping: rtt to "@ + peer + " is "@ + decimal(millis) + " ms"@,
        ProbeView::Pong => "ping: pong from "@ + peer,
        ProbeView::Timeout => "ping: timeout to "@ + peer,
        ProbeView::Failure(error) => "ping: failure with "@ + peer + ": "@ + error,
    }
}

/// The line of a notice.
pub open spec fn notice_text(notice: NoticeView) -> Seq<char> {
    match notice {
        NoticeView::ActionsClosed => "actions_rx channel closed"@,
        NoticeView::Listening { node, address } => "Listening on "@ + node + " "@ + address,
        NoticeView::Probe { peer, outcome } => probe_text(peer, outcome),
        NoticeView::DispatchFailed(error) => dispatch_error_text(error),
    }
}

/// Writes the line that reports a probe.
pub fn probe_message(peer: &str, outcome: &Probe) -> (line: String)
    ensures
        line@ == probe_text(peer@, outcome@),
{
    match outcome {
        Probe::Rtt(millis) => {
            let number = decimal_string(*millis);
            let mut line = String::from_str("ping: rtt to ");
            line.append(peer);
            line.append(" is ");
            line.append(number.as_str());
            line.append(" ms");
            line
        },
        Probe::Pong => {
            let mut line = String::from_str("ping: pong from ");
            line.append(peer);
            line
        },
        Probe::Timeout => {
            let mut line = String::from_str("ping: timeout to ");
            line.append(peer);
            line
        },
        Probe::Failure(error) => {
            let mut line = String::from_str("ping: failure with ");
            line.append(peer);
            line.append(": ");
            line.append(error.as_str());
            line
        },
    }
}

impl Notice {
    /// Writes the line of the notice.
    pub fn message(&self) -> (line: String)
        ensures
            line@ == notice_text(self@),
    {
        match self {
            Notice::ActionsClosed => String::from_str("actions_rx channel closed"),
            Notice::Listening { node, address } => {
                let mut line = String::from_str("Listening on ");
                line.append(node.as_str());
                line.append(" ");
                line.append(address.as_str());
                line
            },
            Notice::Probe { peer, outcome } => probe_message(peer.as_str(), outcome),
            Notice::DispatchFailed(error) => error.message(),
        }
    }
}

/// Everything one step of the runtime asks of its driver: calls on the
/// collaborators, events for the application, lines for the operator. Each
/// list is in the order in which its items are to be carried out.
#[derive(Clone, Debug, PartialEq, Eq)]
pub struct Output {
    pub commands: Vec<Command>,
    pub events: Vec<Event>,
    pub notices: Vec<Notice>,
}

pub struct OutputView {
    pub commands: Seq<CommandView>,
    pub events: Seq<EventView>,
    pub notices: Seq<NoticeView>,
}

impl View for Output {
    type V = OutputView;

    open spec fn view(&self) -> OutputView {
        OutputView {
            commands: self.commands.deep_view(),
            events: self.events.deep_view(),
            notices: self.notices.deep_view(),
        }
    }
}

impl OutputView {
    /// Nothing to do.
    pub open spec fn nothing() -> OutputView {
        OutputView { commands: Seq::empty(), events: Seq::empty(), notices: Seq::empty() }
    }

    /// First all of `self`, then all of `next`.
    pub open spec fn followed_by(self, next: OutputView) -> OutputView {
        OutputView {
            commands: self.commands + next.commands,
            events: self.events + next.events,
            notices: self.notices + next.notices,
        }
    }
}

impl Output {
    /// Nothing to do.
    pub fn nothing() -> (out: Output)
        ensures
            out@ == OutputView::nothing(),
            out.commands@.len() == 0,
            out.events@.len() == 0,
            out.notices@.len() == 0,
    {
        let out = Output { commands: Vec::new(), events: Vec::new(), notices: Vec::new() };
        assert(out.commands.deep_view() =~= Seq::empty());
        assert(out.events.deep_view() =~= Seq::empty());
        assert(out.notices.deep_view() =~= Seq::empty());
        out
    }
}

/// The calls that feed the locations a node advertises into the DHT's
/// address book: one per location, in the order given.
pub open spec fn register_all(peer: Seq<char>, addresses: Seq<Seq<char>>) -> Seq<CommandView> {
    Seq::new(
        addresses.len(),
        |i: int| CommandView::AddAddress { peer: peer, address: addresses[i] },
    )
}

/// What one low-level occurrence leads to.
///
/// A routing update and a delivered message each become one event for the
/// application. A probe is reported to the operator, and becomes an event
/// unless it is the answer to a probe of ours by the other side. The
/// locations of an identity exchange are registered with the DHT, which is
/// the only coupling between two collaborators. Bookkeeping leads to nothing.
pub open spec fn surface(event: ProtocolEventView) -> OutputView {
    match event {
        ProtocolEventView::Routing { peer, addresses } => OutputView {
            commands: Seq::empty(),
            events: seq![EventView::PeerDiscovered { peer, addresses }],
            notices: Seq::empty(),
        },
        ProtocolEventView::Message { sender, payload } => OutputView {
            commands: Seq::empty(),
            events: seq![EventView::MessageReceived { sender, payload }],
            notices: Seq::empty(),
        },
        ProtocolEventView::Probe { peer, outcome } => OutputView {
            commands: Seq::empty(),
            events: if outcome is Pong {
                Seq::empty()
            } else {
                seq![EventView::Liveness { peer, outcome }]
            },
            notices: seq![NoticeView::Probe { peer, outcome }],
        },
        ProtocolEventView::PeerInfo { peer, addresses } => OutputView {
            commands: register_all(peer, addresses),
            events: Seq::empty(),
            notices: Seq::empty(),
        },
        ProtocolEventView::Housekeeping => OutputView::nothing(),
    }
}

/// Builds the calls that register every location of a node.
pub fn register_addresses(peer: &String, addresses: &Vec<String>) -> (commands: Vec<Command>)
    ensures
        commands.deep_view() == register_all(peer@, addresses.deep_view()),
{
    let mut commands: Vec<Command> = Vec::new();
    let mut i: usize = 0;
    while i < addresses.len()
        invariant
            i <= addresses.len(),
            commands.len() == i,
            forall|j: int|
                0 <= j < i ==> #[trigger] commands[j]@ == (CommandView::AddAddress {
                    peer: peer@,
                    address: addresses[j]@,
                }),
        decreases addresses.len() - i,
    {
        commands.push(Command::AddAddress { peer: peer.clone(), address: addresses[i].clone() });
        i += 1;
    }
    assert(commands.deep_view() =~= register_all(peer@, addresses.deep_view()));
    commands
}

impl ProtocolEvent {
    /// Decides what the occurrence leads to.
    pub fn translate(self) -> (out: Output)
        ensures
            out@ == surface(self@),
    {
        let mut out = Output::nothing();
        match self {
            ProtocolEvent::Routing { peer, addresses } => {
                out.events.push(Event::PeerDiscovered { peer, addresses });
                assert(out.events.deep_view() =~= seq![
                    EventView::PeerDiscovered { peer: peer@, addresses: addresses.deep_view() },
                ]);
            },
            ProtocolEvent::Message { sender, payload } => {
                out.events.push(Event::MessageReceived { sender, payload });
                assert(out.events.deep_view() =~= seq![
                    EventView::MessageReceived { sender: sender@, payload: payload@ },
                ]);
            },
            ProtocolEvent::Probe { peer, outcome } => {
                match outcome {
                    Probe::Pong => {},
                    _ => {
                        out.events.push(
                            Event::Liveness { peer: peer.clone(), outcome: outcome.duplicate() },
                        );
                        assert(out.events.deep_view() =~= seq![
                            EventView::Liveness { peer: peer@, outcome: outcome@ },
                        ]);
                    },
                }
                out.notices.push(Notice::Probe { peer, outcome });
                assert(out.notices.deep_view() =~= seq![
                    NoticeView::Probe { peer: peer@, outcome: outcome@ },
                ]);
            },
            ProtocolEvent::PeerInfo { peer, addresses } => {
                out.commands = register_addresses(&peer, &addresses);
            },
            ProtocolEvent::Housekeeping => {},
        }
        out
    }
}

} // verus!
