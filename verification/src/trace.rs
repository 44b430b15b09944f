//! Runs of the runtime over many poll results, and what holds of all of
//! them.

use vstd::prelude::*;
use crate::action::{dispatch_spec, topic_text, verdict_on, ActionView, CommandView};
use crate::address::{is_multiaddr, is_peer_id, Wellformed};
use crate::event::{EventView, NoticeView, OutputView};
use crate::listening::{distinct, lemma_distinct};
use crate::runtime::{
    announcement, dispatch_output, poll_verdict, ActionPollView, Phase, Request, Runtime,
    SessionPollView,
};

verus! {

/// One thing that happens to the task: the scheduler wakes it, or a poll of
/// the queue or of the session comes back.
pub enum Input {
    Wake,
    Actions(ActionPollView),
    Session(SessionPollView),
    EventsClosed,
}

/// The calls that a request leads to, none where it is turned down.
pub open spec fn calls(action: ActionView) -> Seq<CommandView> {
    dispatch_output(action, verdict_on(action)).commands
}

/// The poll results in which the queue hands out `actions`, one after the
/// other.
pub open spec fn queued(actions: Seq<ActionView>) -> Seq<Input> {
    actions.map_values(|action: ActionView| Input::Actions(ActionPollView::Ready(action)))
}

impl Runtime {
    /// Whether `input` can happen in this state: the driver polls what the
    /// runtime asked for and wakes only a suspended task.
    pub open spec fn accepts(self, input: Input) -> bool {
        match input {
            Input::Wake => self.phase is Suspended,
            Input::Actions(_) => self.phase is Draining,
            Input::Session(_) => self.phase is Driving,
            Input::EventsClosed => true,
        }
    }

    /// The state after `input`, and what the driver is to carry out.
    pub open spec fn step(self, input: Input) -> (Runtime, OutputView) {
        match input {
            Input::Wake => (self.on_wake(), OutputView::nothing()),
            Input::Actions(polled) => self.on_actions(polled, poll_verdict(polled)),
            Input::Session(polled) => self.on_session(polled),
            Input::EventsClosed => (self.on_events_closed(), OutputView::nothing()),
        }
    }

    /// The state after all of `inputs`, and everything the driver was to
    /// carry out on the way, in order.
    pub open spec fn run(self, inputs: Seq<Input>) -> (Runtime, OutputView)
        decreases inputs.len(),
    {
        if inputs.len() == 0 {
            (self, OutputView::nothing())
        } else {
            let (before, done) = self.run(inputs.drop_last());
            let (after, more) = before.step(inputs.last());
            (after, done.followed_by(more))
        }
    }

    /// Whether each of `inputs` can happen in the state that those before it
    /// lead to.
    pub open spec fn admits(self, inputs: Seq<Input>) -> bool
        decreases inputs.len(),
    {
        inputs.len() == 0 || (self.admits(inputs.drop_last()) && self.run(
            inputs.drop_last(),
        ).0.accepts(inputs.last()))
    }
}

/// No step leads out of the consistent states, and no step changes the
/// node's identifier.
pub proof fn lemma_step_keeps_consistent(state: Runtime, input: Input)
    requires
        state.consistent(),
        state.accepts(input),
    ensures
        state.step(input).0.consistent(),
        state.step(input).0.node == state.node,
{
}

/// No run leads out of the consistent states, and no run changes the node's
/// identifier.
pub proof fn lemma_run_keeps_consistent(state: Runtime, inputs: Seq<Input>)
    requires
        state.consistent(),
        state.admits(inputs),
    ensures
        state.run(inputs).0.consistent(),
        state.run(inputs).0.node == state.node,
    decreases inputs.len(),
{
    if inputs.len() > 0 {
        lemma_run_keeps_consistent(state, inputs.drop_last());
        lemma_step_keeps_consistent(state.run(inputs.drop_last()).0, inputs.last());
    }
}

/// Requests taken off the queue before the session is polled are applied in
/// the order of their arrival: the collaborators see the calls of the first
/// request, then those of the second, and so on, each once and none left
/// out. The runtime is still draining afterwards.
pub proof fn lemma_requests_applied_in_order(state: Runtime, actions: Seq<ActionView>)
    requires
        state.phase is Draining,
    ensures
        state.admits(queued(actions)),
        state.run(queued(actions)).0 == state,
        state.run(queued(actions)).1.commands == actions.map_values(
            |action: ActionView| calls(action),
        ).flatten(),
        state.run(queued(actions)).1.events.len() == 0,
    decreases actions.len(),
{
    let per_request = actions.map_values(|action: ActionView| calls(action));
    if actions.len() == 0 {
        assert(per_request =~= Seq::<Seq<CommandView>>::empty());
        assert(per_request.flatten() =~= Seq::<CommandView>::empty());
    } else {
        let front = actions.drop_last();
        lemma_requests_applied_in_order(state, front);
        assert(queued(actions).drop_last() =~= queued(front));
        assert(queued(actions).last() == Input::Actions(ActionPollView::Ready(actions.last())));
        let front_calls = front.map_values(|action: ActionView| calls(action));
        assert(per_request =~= front_calls.push(calls(actions.last())));
        front_calls.lemma_flatten_push(calls(actions.last()));
    }
}

/// Within one turn the queue comes first: once the session has been polled,
/// the queue is not polled again until the scheduler has woken the task
/// anew. So the session is never polled with a request half applied.
pub proof fn lemma_queue_before_session(state: Runtime, inputs: Seq<Input>)
    requires
        state.admits(inputs),
        forall|i: int| 0 <= i < inputs.len() ==> !((#[trigger] inputs[i]) is Wake),
    ensures
        forall|i: int, j: int|
            0 <= i < j < inputs.len() && (#[trigger] inputs[i]) is Session ==> !((
            #[trigger] inputs[j]) is Actions),
        (exists|i: int| 0 <= i < inputs.len() && (#[trigger] inputs[i]) is Session) ==> !(state.run(
            inputs,
        ).0.phase is Draining),
    decreases inputs.len(),
{
    if inputs.len() > 0 {
        let front = inputs.drop_last();
        assert forall|i: int| 0 <= i < front.len() implies !((#[trigger] front[i]) is Wake) by {
            assert(front[i] == inputs[i]);
        }
        lemma_queue_before_session(state, front);
        let before = state.run(front).0;
        assert(before.accepts(inputs.last()));
        assert forall|i: int, j: int|
            0 <= i < j < inputs.len() && (#[trigger] inputs[i]) is Session implies !((
        #[trigger] inputs[j]) is Actions) by {
            assert(front[i] == inputs[i]);
            if j < front.len() {
                assert(front[j] == inputs[j]);
            }
        }
        if exists|i: int| 0 <= i < inputs.len() && (#[trigger] inputs[i]) is Session {
            let i = choose|i: int| 0 <= i < inputs.len() && (#[trigger] inputs[i]) is Session;
            if i < front.len() {
                assert(front[i] is Session);
            }
        }
    }
}

/// A well-formed `Bootstrap` request leads to exactly two calls: the
/// location is registered for the node, once, and after that the bootstrap
/// is started, once. Both are made before the session is polled again:
/// whatever that poll leads to comes after them.
pub proof fn lemma_bootstrap_registers_first(
    state: Runtime,
    peer: Seq<char>,
    address: Seq<char>,
    polled: SessionPollView,
)
    requires
        state.phase is Draining,
        is_peer_id(peer),
        is_multiaddr(address),
    ensures
        calls(ActionView::Bootstrap(peer, address)) == seq![
            CommandView::AddAddress { peer, address },
            CommandView::Bootstrap,
        ],
        ({
            let turn = seq![
                Input::Actions(ActionPollView::Ready(ActionView::Bootstrap(peer, address))),
                Input::Actions(ActionPollView::Empty),
                Input::Session(polled),
            ];
            let driving = Runtime { phase: Phase::Driving, ..state };
            &&& state.admits(turn)
            &&& state.run(turn).1.commands == seq![
                CommandView::AddAddress { peer, address },
                CommandView::Bootstrap,
            ] + driving.on_session(polled).1.commands
        }),
{
    let request = Input::Actions(ActionPollView::Ready(ActionView::Bootstrap(peer, address)));
    let empty = Input::Actions(ActionPollView::Empty);
    let turn = seq![request, empty, Input::Session(polled)];
    let two = seq![request, empty];
    let one = seq![request];
    assert(turn.drop_last() =~= two);
    assert(two.drop_last() =~= one);
    assert(one.drop_last() =~= Seq::<Input>::empty());
    assert(state.admits(one.drop_last()));
    assert(state.run(one.drop_last()).0 == state);
    assert(state.accepts(one.last()));
    assert(state.admits(one));
    assert(state.run(one).0 == state);
    assert(state.admits(two));
    assert(state.run(two).0 == Runtime { phase: Phase::Driving, ..state });
    assert(state.admits(turn));
    let driving = Runtime { phase: Phase::Driving, ..state };
    assert(state.run(turn).1.commands =~= seq![
        CommandView::AddAddress { peer, address },
        CommandView::Bootstrap,
    ] + driving.on_session(polled).1.commands);
}

/// A `PublishMessage` request is always accepted, and its payload reaches
/// the gossip collaborator as it was submitted, empty or not, on the shared
/// topic.
pub proof fn lemma_publish_forwarded_unchanged(payload: Seq<u8>, verdict: Wellformed)
    ensures
        dispatch_spec(ActionView::PublishMessage(payload), verdict) == Ok::<
            Seq<CommandView>,
            crate::action::ActionDispatchErrorView,
        >(seq![CommandView::Publish { topic: topic_text(), payload }]),
        calls(ActionView::PublishMessage(payload)) == seq![
            CommandView::Publish { topic: topic_text(), payload },
        ],
{
}

/// Nothing but the closure of the session or the loss of a channel's other
/// end leads to shutdown. A request that fails, a probe that times out and
/// every other occurrence leave the runtime in the phase it was in.
pub proof fn lemma_only_closure_ends_the_runtime(state: Runtime, input: Input)
    requires
        state.accepts(input),
    ensures
        state.step(input).0.closing && !state.closing ==> input == Input::Actions(
            ActionPollView::Closed,
        ) || input is EventsClosed,
        state.step(input).0.phase is Terminated && !(state.phase is Terminated) ==> input
            == Input::Session(SessionPollView::Closed) || input is EventsClosed || (
        state.closing && input matches Input::Session(SessionPollView::Idle(_))),
        input matches Input::Actions(ActionPollView::Ready(_)) ==> state.step(input).0 == state,
        input matches Input::Session(SessionPollView::Ready(_)) ==> state.step(input).0 == state,
{
}

/// When the queue reports that the sender of requests is gone, or the
/// channel that the receiver of events is, the runtime starts to shut down.
/// Unless it has shut down with that, it asks for the session to be polled.
pub proof fn lemma_lost_peer_starts_shutdown(state: Runtime)
    ensures
        state.phase is Draining ==> state.step(Input::Actions(ActionPollView::Closed)).0.closing
            && state.step(Input::Actions(ActionPollView::Closed)).0.request()
            == Request::PollSession,
        !(state.phase is Terminated) ==> state.step(Input::EventsClosed).0.closing,
        state.step(Input::EventsClosed).0.request() == Request::PollSession || state.step(
            Input::EventsClosed,
        ).0.request() == Request::Finish,
{
}

/// Once the runtime is shutting down it stays so, and the turn it is in is
/// its last: it is never woken and never polls the queue again, and as soon
/// as a poll finds the session idle or closed the runtime has shut down.
pub proof fn lemma_shutdown_within_the_turn(state: Runtime, inputs: Seq<Input>)
    requires
        state.consistent(),
        state.closing,
        state.admits(inputs),
    ensures
        state.run(inputs).0.closing,
        state.run(inputs).0.phase is Driving || state.run(inputs).0.phase is Terminated,
        forall|i: int|
            0 <= i < inputs.len() ==> (#[trigger] inputs[i]) is Session || inputs[i] is EventsClosed,
        forall|i: int|
            0 <= i < inputs.len() && (#[trigger] inputs[i]) is Session && !(inputs[i] matches Input::Session(
                SessionPollView::Ready(_),
            )) ==> state.run(inputs).0.phase is Terminated,
    decreases inputs.len(),
{
    if inputs.len() > 0 {
        let front = inputs.drop_last();
        lemma_shutdown_within_the_turn(state, front);
        let before = state.run(front).0;
        assert(before.accepts(inputs.last()));
        assert forall|i: int| 0 <= i < inputs.len() implies (#[trigger] inputs[i]) is Session
            || inputs[i] is EventsClosed by {
            if i < front.len() {
                assert(front[i] == inputs[i]);
            }
        }
        assert forall|i: int|
            0 <= i < inputs.len() && (#[trigger] inputs[i]) is Session && !(inputs[i] matches Input::Session(
                SessionPollView::Ready(_),
            )) implies state.run(inputs).0.phase is Terminated by {
            if i < front.len() {
                assert(front[i] == inputs[i]);
                assert(before.phase is Terminated);
            }
        }
    }
}

/// A runtime that has shut down asks for the channel of events to be closed.
/// It polls nothing and is not woken; nothing changes it any more, and it
/// asks nothing more of its driver.
pub proof fn lemma_shutdown_is_final(state: Runtime, inputs: Seq<Input>)
    requires
        state.phase is Terminated,
        state.admits(inputs),
    ensures
        state.request() == Request::Finish,
        forall|i: int| 0 <= i < inputs.len() ==> (#[trigger] inputs[i]) is EventsClosed,
        state.run(inputs) == (state, OutputView::nothing()),
    decreases inputs.len(),
{
    if inputs.len() > 0 {
        let front = inputs.drop_last();
        lemma_shutdown_is_final(state, front);
        assert(state.run(front).0.accepts(inputs.last()));
        assert forall|i: int| 0 <= i < inputs.len() implies (#[trigger] inputs[i]) is EventsClosed by {
            if i < front.len() {
                assert(front[i] == inputs[i]);
            }
        }
        let merged = OutputView::nothing().followed_by(OutputView::nothing());
        assert(merged.commands =~= OutputView::nothing().commands);
        assert(merged.events =~= OutputView::nothing().events);
        assert(merged.notices =~= OutputView::nothing().notices);
    }
}

/// The first time the session is found idle with an address to listen on,
/// the addresses are announced, and the runtime remembers it.
pub proof fn lemma_announces_when_first_idle(state: Runtime, listeners: Seq<Seq<char>>)
    requires
        state.phase is Driving,
        !state.announced,
        listeners.len() > 0,
    ensures
        state.on_session(SessionPollView::Idle(listeners)).1 == announcement(
            state.node,
            listeners,
        ),
        state.on_session(SessionPollView::Idle(listeners)).0.announced,
{
}

/// An announcement holds one notice and one event for each address that the
/// session listens on, and none twice.
pub proof fn lemma_announcement_once_per_address(node: Seq<char>, listeners: Seq<Seq<char>>)
    ensures
        announcement(node, listeners).notices.no_duplicates(),
        announcement(node, listeners).events.no_duplicates(),
        announcement(node, listeners).notices.len() == announcement(node, listeners).events.len(),
        forall|address: Seq<char>|
            listeners.contains(address) <==> announcement(node, listeners).notices.contains(
                NoticeView::Listening { node, address },
            ),
        forall|address: Seq<char>|
            listeners.contains(address) <==> announcement(node, listeners).events.contains(
                EventView::ListeningAddress { address },
            ),
        forall|i: int|
            0 <= i < announcement(node, listeners).notices.len() ==> (#[trigger] announcement(
                node,
                listeners,
            ).notices[i]) is Listening,
{
    let addresses = distinct(listeners);
    let notices = announcement(node, listeners).notices;
    let events = announcement(node, listeners).events;
    lemma_distinct(listeners);
    assert forall|address: Seq<char>| listeners.contains(address) <==> notices.contains(
        NoticeView::Listening { node, address },
    ) by {
        let wanted = NoticeView::Listening { node, address };
        if listeners.contains(address) {
            assert(addresses.contains(address));
            let i = choose|i: int| 0 <= i < addresses.len() && addresses[i] == address;
            assert(notices[i] == wanted);
        }
        if notices.contains(wanted) {
            let i = choose|i: int| 0 <= i < notices.len() && notices[i] == wanted;
            assert(addresses[i] == address);
            assert(addresses.contains(address));
        }
    }
    assert forall|address: Seq<char>| listeners.contains(address) <==> events.contains(
        EventView::ListeningAddress { address },
    ) by {
        let wanted = EventView::ListeningAddress { address };
        if listeners.contains(address) {
            assert(addresses.contains(address));
            let i = choose|i: int| 0 <= i < addresses.len() && addresses[i] == address;
            assert(events[i] == wanted);
        }
        if events.contains(wanted) {
            let i = choose|i: int| 0 <= i < events.len() && events[i] == wanted;
            assert(addresses[i] == address);
            assert(addresses.contains(address));
        }
    }
}

/// After the announcement nothing is announced again: whatever happens to
/// the runtime, no further step tells the operator or the application of a
/// listening address.
pub proof fn lemma_no_second_announcement(state: Runtime, inputs: Seq<Input>)
    requires
        state.announced,
        state.admits(inputs),
    ensures
        state.run(inputs).0.announced,
        forall|i: int|
            0 <= i < state.run(inputs).1.notices.len() ==> !((#[trigger] state.run(
                inputs,
            ).1.notices[i]) is Listening),
        forall|i: int|
            0 <= i < state.run(inputs).1.events.len() ==> !((#[trigger] state.run(
                inputs,
            ).1.events[i]) is ListeningAddress),
    decreases inputs.len(),
{
    if inputs.len() > 0 {
        let front = inputs.drop_last();
        lemma_no_second_announcement(state, front);
        let (before, done) = state.run(front);
        let (after, more) = before.step(inputs.last());
        assert forall|i: int| 0 <= i < more.notices.len() implies !((
        #[trigger] more.notices[i]) is Listening) by {}
        assert forall|i: int| 0 <= i < more.events.len() implies !((
        #[trigger] more.events[i]) is ListeningAddress) by {}
        let all = state.run(inputs).1;
        assert forall|i: int| 0 <= i < all.notices.len() implies !((
        #[trigger] all.notices[i]) is Listening) by {
            if i < done.notices.len() {
                assert(all.notices[i] == done.notices[i]);
            } else {
                assert(all.notices[i] == more.notices[i - done.notices.len()]);
            }
        }
        assert forall|i: int| 0 <= i < all.events.len() implies !((
        #[trigger] all.events[i]) is ListeningAddress) by {
            if i < done.events.len() {
                assert(all.events[i] == done.events[i]);
            } else {
                assert(all.events[i] == more.events[i - done.events.len()]);
            }
        }
    }
}

} // verus!
