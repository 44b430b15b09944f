//! The node runtime: one cooperative task that drains the queue of
//! requests, then drives the network session, then suspends.
//!
//! The runtime here is the deciding half of that task. The driver polls the
//! queue and the session and hands each result in; the runtime says what is
//! to be done with it and what to poll next.

use vstd::prelude::*;
use libp2p::identity::Keypair;
use crate::action::{
    dispatch_spec, verdict_on, Action, ActionDispatchError, ActionDispatchErrorView, ActionView,
    Command,
};
use crate::address::{is_multiaddr, parses_as_multiaddr, Wellformed};
use crate::event::{
    surface, Event, EventView, Notice, NoticeView, Output, OutputView, ProtocolEvent,
    ProtocolEventView,
};
use crate::identity::{derive_node_id, generate_keypair};
use crate::listening::{distinct, distinct_texts};
use crate::session::{
    listen_address, listen_text, plan_session, plan_spec, planned_view, SessionPlan, SetupError,
};

verus! {

/// Where the task stands within a scheduling turn.
#[derive(Clone, Copy, Debug, PartialEq, Eq, Structural)]
pub enum Phase {
    /// Taking requests off the queue, one by one.
    Draining,
    /// Polling the network session for its next occurrence.
    Driving,
    /// Nothing more to do right now: yielded to the scheduler.
    Suspended,
    /// Shut down. The channel of events is closed.
    Terminated,
}

/// What the driver is to do next.
#[derive(Clone, Copy, Debug, PartialEq, Eq, Structural)]
pub enum Request {
    /// Try to take one request off the queue, without blocking.
    PollActions,
    /// Poll the network session once.
    PollSession,
    /// Yield; call `wake` when the queue or the session has news.
    Suspend,
    /// Close the channel of events and end the task.
    Finish,
}

/// The result of trying to take one request off the queue.
#[derive(Clone, Debug, PartialEq, Eq)]
pub enum ActionPoll {
    /// A request was waiting.
    Ready(Action),
    /// Nothing is queued right now.
    Empty,
    /// Nothing is queued and the sender is gone.
    Closed,
}

pub enum ActionPollView {
    Ready(ActionView),
    Empty,
    Closed,
}

impl View for ActionPoll {
    type V = ActionPollView;

    open spec fn view(&self) -> ActionPollView {
        match self {
            ActionPoll::Ready(action) => ActionPollView::Ready(action@),
            ActionPoll::Empty => ActionPollView::Empty,
            ActionPoll::Closed => ActionPollView::Closed,
        }
    }
}

/// The result of polling the network session once.
#[derive(Clone, Debug, PartialEq, Eq)]
pub enum SessionPoll {
    /// The session made progress and reports an occurrence.
    Ready(ProtocolEvent),
    /// The session can make no further progress right now. With it come the
    /// local addresses it listens on at this moment.
    Idle(Vec<String>),
    /// The session is closed for good.
    Closed,
}

pub enum SessionPollView {
    Ready(ProtocolEventView),
    Idle(Seq<Seq<char>>),
    Closed,
}

impl View for SessionPoll {
    type V = SessionPollView;

    open spec fn view(&self) -> SessionPollView {
        match self {
            SessionPoll::Ready(event) => SessionPollView::Ready(event@),
            SessionPoll::Idle(listeners) => SessionPollView::Idle(listeners.deep_view()),
            SessionPoll::Closed => SessionPollView::Closed,
        }
    }
}

/// The state of a runtime, as far as its decisions depend on it.
pub struct Runtime {
    /// The node's public identifier.
    pub node: Seq<char>,
    pub phase: Phase,
    /// The other end of one of the two channels is gone: the runtime is
    /// shutting down.
    pub closing: bool,
    /// The listening addresses have been announced.
    pub announced: bool,
}

/// What a request leads to: its calls, or the report of why there are none.
pub open spec fn dispatch_output(action: ActionView, verdict: Wellformed) -> OutputView {
    match dispatch_spec(action, verdict) {
        Ok(commands) => OutputView {
            commands,
            events: Seq::empty(),
            notices: Seq::empty(),
        },
        Err(error) => OutputView {
            commands: Seq::empty(),
            events: Seq::empty(),
            notices: seq![NoticeView::DispatchFailed(error)],
        },
    }
}

/// The announcement of the addresses in `listeners`: for each address one
/// event and one notice, none of them twice.
pub open spec fn announcement(node: Seq<char>, listeners: Seq<Seq<char>>) -> OutputView {
    let addresses = distinct(listeners);
    OutputView {
        commands: Seq::empty(),
        events: Seq::new(
            addresses.len(),
            |i: int| EventView::ListeningAddress { address: addresses[i] },
        ),
        notices: Seq::new(
            addresses.len(),
            |i: int| NoticeView::Listening { node: node, address: addresses[i] },
        ),
    }
}

/// Writes the announcement of the addresses in `listeners`.
pub fn announce(node: &String, listeners: &Vec<String>) -> (out: Output)
    ensures
        out@ == announcement(node@, listeners.deep_view()),
{
    let addresses = distinct_texts(listeners);
    let mut out = Output::nothing();
    let mut i: usize = 0;
    while i < addresses.len()
        invariant
            i <= addresses.len(),
            out.commands@.len() == 0,
            out.events.len() == i,
            out.notices.len() == i,
            forall|j: int|
                0 <= j < i ==> #[trigger] out.events[j]@ == (EventView::ListeningAddress {
                    address: addresses[j]@,
                }),
            forall|j: int|
                0 <= j < i ==> #[trigger] out.notices[j]@ == (NoticeView::Listening {
                    node: node@,
                    address: addresses[j]@,
                }),
        decreases addresses.len() - i,
    {
        out.events.push(Event::ListeningAddress { address: addresses[i].clone() });
        out.notices.push(Notice::Listening { node: node.clone(), address: addresses[i].clone() });
        i += 1;
    }
    proof {
        let wanted = announcement(node@, listeners.deep_view());
        assert(out.commands.deep_view() =~= wanted.commands);
        assert(out.events.deep_view() =~= wanted.events);
        assert(out.notices.deep_view() =~= wanted.notices);
    }
    out
}

/// What the parsers have to say of a polled request, if there is one.
pub open spec fn poll_verdict(polled: ActionPollView) -> Wellformed {
    match polled {
        ActionPollView::Ready(action) => verdict_on(action),
        _ => Wellformed { peer: true, address: true },
    }
}

impl Runtime {
    /// A runtime that has just been made.
    pub open spec fn initial(node: Seq<char>) -> Runtime {
        Runtime { node, phase: Phase::Draining, closing: false, announced: false }
    }

    /// What holds of every runtime: one that is shutting down never drains
    /// the queue or suspends again.
    pub open spec fn consistent(self) -> bool {
        self.closing ==> self.phase is Driving || self.phase is Terminated
    }

    /// What the driver is to do next.
    pub open spec fn request(self) -> Request {
        match self.phase {
            Phase::Draining => Request::PollActions,
            Phase::Driving => Request::PollSession,
            Phase::Suspended => Request::Suspend,
            Phase::Terminated => Request::Finish,
        }
    }

    /// The step on a result of polling the queue.
    ///
    /// A request is dispatched at once and the queue is polled again. An
    /// empty queue ends the draining for this turn. A closed queue ends it
    /// for good; the operator is told.
    pub open spec fn on_actions(self, polled: ActionPollView, verdict: Wellformed) -> (
        Runtime,
        OutputView,
    ) {
        match polled {
            ActionPollView::Ready(action) => (self, dispatch_output(action, verdict)),
            ActionPollView::Empty => (
                Runtime { phase: Phase::Driving, ..self },
                OutputView::nothing(),
            ),
            ActionPollView::Closed => (
                Runtime { phase: Phase::Driving, closing: true, ..self },
                OutputView {
                    commands: Seq::empty(),
                    events: Seq::empty(),
                    notices: seq![NoticeView::ActionsClosed],
                },
            ),
        }
    }

    /// The step on a result of polling the session.
    ///
    /// An occurrence is translated and the session is polled again. When the
    /// session is idle, the listening addresses are announced unless that
    /// has been done, and the turn ends: in suspension, or, where the runtime
    /// is shutting down, in shutdown. A closed session ends in shutdown.
    pub open spec fn on_session(self, polled: SessionPollView) -> (Runtime, OutputView) {
        match polled {
            SessionPollView::Ready(event) => (self, surface(event)),
            SessionPollView::Idle(listeners) => (
                Runtime {
                    phase: if self.closing {
                        Phase::Terminated
                    } else {
                        Phase::Suspended
                    },
                    announced: self.announced || listeners.len() > 0,
                    ..self
                },
                if self.announced || listeners.len() == 0 {
                    OutputView::nothing()
                } else {
                    announcement(self.node, listeners)
                },
            ),
            SessionPollView::Closed => (
                Runtime { phase: Phase::Terminated, ..self },
                OutputView::nothing(),
            ),
        }
    }

    /// The step when the scheduler wakes the task: a new turn begins with
    /// the queue.
    pub open spec fn on_wake(self) -> Runtime {
        Runtime { phase: Phase::Draining, ..self }
    }

    /// The step when the receiver of events turns out to be gone. Like the
    /// loss of the sender of requests it starts the shutdown: the queue is
    /// left alone from now on, the session is driven until it is idle, and a
    /// task that has already yielded is done.
    pub open spec fn on_events_closed(self) -> Runtime {
        match self.phase {
            Phase::Draining | Phase::Driving => Runtime {
                phase: Phase::Driving,
                closing: true,
                ..self
            },
            Phase::Suspended => Runtime { phase: Phase::Terminated, closing: true, ..self },
            Phase::Terminated => self,
        }
    }
}

/// The node runtime.
///
/// It owns the node's credential and knows where in a scheduling turn the
/// task stands. Every method that takes a poll result returns what the
/// driver is to carry out before it polls again.
pub struct Civ5p2p {
    keypair: Keypair,
    node_id: String,
    phase: Phase,
    closing: bool,
    announced: bool,
}

impl View for Civ5p2p {
    type V = Runtime;

    closed spec fn view(&self) -> Runtime {
        Runtime {
            node: self.node_id@,
            phase: self.phase,
            closing: self.closing,
            announced: self.announced,
        }
    }
}

impl Civ5p2p {
    #[verifier::type_invariant]
    spec fn type_inv(self) -> bool {
        self@.consistent()
    }

    /// The credential that the runtime was made with.
    pub closed spec fn credential(&self) -> Keypair {
        self.keypair
    }

    /// A runtime for the node with this credential, about to drain the queue
    /// for the first time.
    pub fn new(keypair: Keypair) -> (node: Civ5p2p)
        ensures
            node.credential() == keypair,
            node@ == Runtime::initial(node@.node),
    {
        let node_id = derive_node_id(&keypair);
        Civ5p2p { keypair, node_id, phase: Phase::Draining, closing: false, announced: false }
    }

    /// A fresh credential, drawn from the system's random source. The key is
    /// opaque to the library and differs from call to call, so nothing is
    /// promised of it; `new` says what becomes of a credential handed in.
    pub fn new_keypair() -> Keypair {
        generate_keypair()
    }

    /// The node's credential.
    pub fn keypair(&self) -> (keypair: &Keypair)
        ensures
            *keypair == self.credential(),
    {
        &self.keypair
    }

    /// The node's public identifier. It is derived once, when the runtime is
    /// made, and no step changes it.
    pub fn node_id(&self) -> (id: &String)
        ensures
            id@ == self@.node,
    {
        &self.node_id
    }

    /// Where the task stands.
    pub fn phase(&self) -> (phase: Phase)
        ensures
            phase == self@.phase,
    {
        self.phase
    }

    /// Whether the runtime is shutting down.
    pub fn is_closing(&self) -> (closing: bool)
        ensures
            closing == self@.closing,
    {
        self.closing
    }

    /// Whether the listening addresses have been announced.
    pub fn has_announced_listening(&self) -> (announced: bool)
        ensures
            announced == self@.announced,
    {
        self.announced
    }

    /// What the driver is to do next.
    pub fn next_request(&self) -> (request: Request)
        ensures
            request == self@.request(),
    {
        match self.phase {
            Phase::Draining => Request::PollActions,
            Phase::Driving => Request::PollSession,
            Phase::Suspended => Request::Suspend,
            Phase::Terminated => Request::Finish,
        }
    }

    /// Draws up the plan of the session, given whether the location to
    /// listen on parses.
    pub fn session_plan_checked(&self, listen_ok: bool) -> (outcome: Result<
        SessionPlan,
        SetupError,
    >)
        ensures
            planned_view(outcome) == plan_spec(self@.node, listen_ok),
    {
        plan_session(&self.node_id, listen_ok)
    }

    /// Draws up the plan of the session. It fails if the location to listen
    /// on is no network location, and only then.
    pub fn session_plan(&self) -> (outcome: Result<SessionPlan, SetupError>)
        ensures
            planned_view(outcome) == plan_spec(self@.node, is_multiaddr(listen_text())),
    {
        let listen_ok = parses_as_multiaddr(listen_address());
        self.session_plan_checked(listen_ok)
    }

    /// Takes a result of polling the queue, given what the parsers said of
    /// the request in it.
    pub fn on_actions_checked(&mut self, polled: ActionPoll, verdict: Wellformed) -> (out: Output)
        requires
            old(self)@.phase is Draining,
        ensures
            (final(self)@, out@) == old(self)@.on_actions(polled@, verdict),
            final(self)@.consistent(),
            final(self).credential() == old(self).credential(),
    {
        proof {
            use_type_invariant(&*self);
        }
        let mut out = Output::nothing();
        match polled {
            ActionPoll::Ready(action) => {
                match action.dispatch_checked(verdict) {
                    Ok(commands) => {
                        out.commands = commands;
                    },
                    Err(error) => {
                        out.notices.push(Notice::DispatchFailed(error));
                        assert(out.notices.deep_view() =~= seq![
                            NoticeView::DispatchFailed(error@),
                        ]);
                    },
                }
            },
            ActionPoll::Empty => {
                self.phase = Phase::Driving;
            },
            ActionPoll::Closed => {
                self.phase = Phase::Driving;
                self.closing = true;
                out.notices.push(Notice::ActionsClosed);
                assert(out.notices.deep_view() =~= seq![NoticeView::ActionsClosed]);
            },
        }
        out
    }

    /// Takes a result of polling the queue. The texts of a `Bootstrap`
    /// request are put to the parsers first.
    pub fn on_actions(&mut self, polled: ActionPoll) -> (out: Output)
        requires
            old(self)@.phase is Draining,
        ensures
            (final(self)@, out@) == old(self)@.on_actions(polled@, poll_verdict(polled@)),
            final(self)@.consistent(),
            final(self).credential() == old(self).credential(),
    {
        let verdict = match &polled {
            ActionPoll::Ready(action) => action.verdict(),
            _ => Wellformed { peer: true, address: true },
        };
        self.on_actions_checked(polled, verdict)
    }

    /// Takes a result of polling the session.
    pub fn on_session(&mut self, polled: SessionPoll) -> (out: Output)
        requires
            old(self)@.phase is Driving,
        ensures
            (final(self)@, out@) == old(self)@.on_session(polled@),
            final(self)@.consistent(),
            final(self).credential() == old(self).credential(),
    {
        proof {
            use_type_invariant(&*self);
        }
        match polled {
            SessionPoll::Ready(event) => event.translate(),
            SessionPoll::Idle(listeners) => {
                let out = if !self.announced && listeners.len() > 0 {
                    self.announced = true;
                    announce(&self.node_id, &listeners)
                } else {
                    Output::nothing()
                };
                if self.closing {
                    self.phase = Phase::Terminated;
                } else {
                    self.phase = Phase::Suspended;
                }
                out
            },
            SessionPoll::Closed => {
                self.phase = Phase::Terminated;
                Output::nothing()
            },
        }
    }

    /// Begins the next turn after a suspension.
    pub fn wake(&mut self)
        requires
            old(self)@.phase is Suspended,
        ensures
            final(self)@ == old(self)@.on_wake(),
            final(self)@.consistent(),
            final(self).credential() == old(self).credential(),
    {
        proof {
            use_type_invariant(&*self);
        }
        self.phase = Phase::Draining;
    }

    /// Takes note that the receiver of events is gone.
    pub fn on_events_closed(&mut self)
        ensures
            final(self)@ == old(self)@.on_events_closed(),
            final(self)@.consistent(),
            final(self).credential() == old(self).credential(),
    {
        proof {
            use_type_invariant(&*self);
        }
        match self.phase {
            Phase::Draining | Phase::Driving => {
                self.phase = Phase::Driving;
                self.closing = true;
            },
            Phase::Suspended => {
                self.phase = Phase::Terminated;
                self.closing = true;
            },
            Phase::Terminated => {},
        }
    }

    /// Reports that a collaborator turned a command down. The runtime goes
    /// on as before.
    pub fn report_refusal(&self, command: Command, reason: String) -> (notice: Notice)
        ensures
            notice@ == NoticeView::DispatchFailed(
                ActionDispatchErrorView::Refused { command: command@, reason: reason@ },
            ),
    {
        Notice::DispatchFailed(ActionDispatchError::Refused { command, reason })
    }
}

} // verus!
