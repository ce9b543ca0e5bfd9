//! The responder: the side of the benchmark that binds and sends back
//! whatever it receives, one message at a time, until something fails.
//!
//! It asks for a socket and binds it. Only when the socket is bound does it
//! announce the endpoint, so a bind that fails leaves nothing written. From
//! there on it waits for a message, sends that message back, and waits
//! again. It has no way to finish: it ends only when an operation fails, and
//! then at once.

use crate::endpoint::Endpoint;
use crate::transport::{Action, ActionView, Event, EventView, Operation, Outcome, Phase, Role};
use crate::transport::{phase_rank, prints, receives, sends};
use vstd::prelude::*;
use vstd::string::*;

verus! {

/// Where a responder stands: which operation it has asked for and waits to
/// hear of.
#[derive(Clone, Copy, Debug, PartialEq, Eq, Structural)]
pub enum ResponderStage {
    /// It has asked for a socket.
    Opening,
    /// It has asked to bind.
    Binding,
    /// The socket is bound, and it has asked for the line that says so.
    Announcing,
    /// It has asked to receive, and owes no reply.
    Awaiting,
    /// It has asked to send back the message that it received.
    Replying,
    /// It has ended.
    Terminated(Outcome),
}

/// A responder on its way.
pub struct Responder {
    endpoint: String,
    stage: ResponderStage,
}

/// A `Responder`, its endpoint taken as a sequence of characters.
pub struct ResponderView {
    pub endpoint: Seq<char>,
    pub stage: ResponderStage,
}

impl View for Responder {
    type V = ResponderView;

    closed spec fn view(&self) -> ResponderView {
        ResponderView { endpoint: self.endpoint@, stage: self.stage }
    }
}

/// The line that announces the endpoint of a responder, once it is bound.
pub open spec fn binding_line(endpoint: Seq<char>) -> Seq<char> {
    "Binding to "@ + endpoint
}

/// The phase that a stage of the responder belongs to.
pub open spec fn responder_phase(stage: ResponderStage) -> Phase {
    match stage {
        ResponderStage::Opening => Phase::Unstarted,
        ResponderStage::Binding => Phase::SocketOpen,
        ResponderStage::Announcing => Phase::SocketOpen,
        ResponderStage::Awaiting => Phase::Looping,
        ResponderStage::Replying => Phase::Looping,
        ResponderStage::Terminated(_) => Phase::Terminated,
    }
}

/// Giving up because `operation` did not succeed.
pub open spec fn responder_stop(operation: Operation) -> (ResponderStage, ActionView) {
    (
        ResponderStage::Terminated(Outcome::Failed(operation)),
        ActionView::Exit(Outcome::Failed(operation)),
    )
}

/// The step of a responder for `endpoint`: the stage that follows `stage` on
/// `event`, and the action asked for on the way.
///
/// The order is: the socket, the bind, the line that announces the endpoint,
/// and then receive and send in turn. Each stage waits for the one event that
/// says its operation succeeded. On any other event the operation counts as
/// failed, and the responder ends. A responder that has ended stays so.
pub open spec fn responder_next(endpoint: Seq<char>, stage: ResponderStage, event: EventView) -> (
    ResponderStage,
    ActionView,
) {
    match stage {
        ResponderStage::Opening => match event {
            EventView::Completed => (ResponderStage::Binding, ActionView::Bind(endpoint)),
            _ => responder_stop(Operation::OpenSocket),
        },
        ResponderStage::Binding => match event {
            EventView::Completed => (
                ResponderStage::Announcing,
                ActionView::Print(binding_line(endpoint)),
            ),
            _ => responder_stop(Operation::Bind),
        },
        ResponderStage::Announcing => match event {
            EventView::Completed => (
                ResponderStage::Awaiting,
                ActionView::Receive(Seq::<u8>::empty()),
            ),
            _ => responder_stop(Operation::Print),
        },
        ResponderStage::Awaiting => match event {
            EventView::Received(request) => (ResponderStage::Replying, ActionView::Send(request)),
            _ => responder_stop(Operation::Receive),
        },
        ResponderStage::Replying => match event {
            EventView::Completed => (
                ResponderStage::Awaiting,
                ActionView::Receive(Seq::<u8>::empty()),
            ),
            _ => responder_stop(Operation::Send),
        },
        ResponderStage::Terminated(outcome) => (stage, ActionView::Exit(outcome)),
    }
}

/// The stage of a responder that has heard of `events`, in this order.
pub open spec fn responder_stage_after(
    endpoint: Seq<char>,
    events: Seq<EventView>,
) -> ResponderStage
    decreases events.len(),
{
    if events.len() == 0 {
        ResponderStage::Opening
    } else {
        responder_next(
            endpoint,
            responder_stage_after(endpoint, events.drop_last()),
            events.last(),
        ).0
    }
}

/// All the actions that a responder has asked for when it has heard of
/// `events`: the first of its own accord, and one more on each event.
pub open spec fn responder_actions(endpoint: Seq<char>, events: Seq<EventView>) -> Seq<ActionView>
    decreases events.len(),
{
    if events.len() == 0 {
        seq![ActionView::OpenSocket(Role::Responder)]
    } else {
        responder_actions(endpoint, events.drop_last()).push(
            responder_next(
                endpoint,
                responder_stage_after(endpoint, events.drop_last()),
                events.last(),
            ).1,
        )
    }
}

impl ResponderStage {
    /// The phase that the stage belongs to.
    pub fn phase(self) -> (phase: Phase)
        ensures
            phase == responder_phase(self),
    {
        match self {
            ResponderStage::Opening => Phase::Unstarted,
            ResponderStage::Binding => Phase::SocketOpen,
            ResponderStage::Announcing => Phase::SocketOpen,
            ResponderStage::Awaiting => Phase::Looping,
            ResponderStage::Replying => Phase::Looping,
            ResponderStage::Terminated(_) => Phase::Terminated,
        }
    }
}

impl Responder {
    /// A responder for `endpoint`, and the first thing it asks for: a socket
    /// of the answering side. From here on the endpoint is its text.
    pub fn begin(endpoint: &Endpoint) -> (r: (Responder, Action))
        ensures
            r.0@ == (ResponderView { endpoint: endpoint@.text(), stage: ResponderStage::Opening }),
            r.1@ == ActionView::OpenSocket(Role::Responder),
    {
        (
            Responder { endpoint: endpoint.text(), stage: ResponderStage::Opening },
            Action::OpenSocket(Role::Responder),
        )
    }

    /// Where the responder stands.
    pub fn stage(&self) -> (stage: ResponderStage)
        ensures
            stage == self@.stage,
    {
        self.stage
    }

    /// The endpoint that the responder binds to, as it is written.
    pub fn endpoint(&self) -> (endpoint: &str)
        ensures
            endpoint@ == self@.endpoint,
    {
        self.endpoint.as_str()
    }

    /// Takes the responder one step on: told of `event`, it moves to its next
    /// stage and asks for its next action, both as `responder_next` says. The
    /// message of a request is handed on as the reply, the same message.
    pub fn step(self, event: Event) -> (r: (Responder, Action))
        ensures
            r.0@.endpoint == self@.endpoint,
            (r.0@.stage, r.1@) == responder_next(self@.endpoint, self@.stage, event@),
    {
        let Responder { endpoint, stage } = self;
        match stage {
            ResponderStage::Opening => match event {
                Event::Completed => {
                    let target = endpoint.clone();
                    (Responder { endpoint, stage: ResponderStage::Binding }, Action::Bind(target))
                },
                _ => Self::stop(endpoint, Operation::OpenSocket),
            },
            ResponderStage::Binding => match event {
                Event::Completed => {
                    let mut line = String::from_str("Binding to ");
                    line.append(endpoint.as_str());
                    (Responder { endpoint, stage: ResponderStage::Announcing }, Action::Print(line))
                },
                _ => Self::stop(endpoint, Operation::Bind),
            },
            ResponderStage::Announcing => match event {
                Event::Completed => (
                    Responder { endpoint, stage: ResponderStage::Awaiting },
                    Action::Receive(zmq::Message::new()),
                ),
                _ => Self::stop(endpoint, Operation::Print),
            },
            ResponderStage::Awaiting => match event {
                Event::Received(request) => (
                    Responder { endpoint, stage: ResponderStage::Replying },
                    Action::Send(request),
                ),
                _ => Self::stop(endpoint, Operation::Receive),
            },
            ResponderStage::Replying => match event {
                Event::Completed => (
                    Responder { endpoint, stage: ResponderStage::Awaiting },
                    Action::Receive(zmq::Message::new()),
                ),
                _ => Self::stop(endpoint, Operation::Send),
            },
            ResponderStage::Terminated(outcome) => (
                Responder { endpoint, stage },
                Action::Exit(outcome),
            ),
        }
    }

    /// Gives up because `operation` did not succeed.
    fn stop(endpoint: String, operation: Operation) -> (r: (Responder, Action))
        ensures
            r.0@.endpoint == endpoint@,
            (r.0@.stage, r.1@) == responder_stop(operation),
    {
        let outcome = Outcome::Failed(operation);
        (Responder { endpoint, stage: ResponderStage::Terminated(outcome) }, Action::Exit(outcome))
    }
}

/// The last action that a responder has asked for tells where it stands, and
/// the other way round.
pub proof fn lemma_responder_position(endpoint: Seq<char>, events: Seq<EventView>)
    ensures
        responder_actions(endpoint, events).len() == events.len() + 1,
        match responder_stage_after(endpoint, events) {
            ResponderStage::Opening => responder_actions(endpoint, events).last()
                == ActionView::OpenSocket(Role::Responder),
            ResponderStage::Binding => responder_actions(endpoint, events).last()
                == ActionView::Bind(endpoint),
            ResponderStage::Announcing => responder_actions(endpoint, events).last()
                == ActionView::Print(binding_line(endpoint)),
            ResponderStage::Awaiting => responder_actions(endpoint, events).last()
                == ActionView::Receive(Seq::<u8>::empty()),
            ResponderStage::Replying => responder_actions(endpoint, events).last() is Send,
            ResponderStage::Terminated(outcome) => responder_actions(endpoint, events).last()
                == ActionView::Exit(outcome),
        },
    decreases events.len(),
{
    if events.len() > 0 {
        lemma_responder_position(endpoint, events.drop_last());
    }
}

/// Whether a responder at `stage` has got as far as its bound socket: it has
/// if it stands past the bind, or has ended on an operation that comes after
/// the bind.
pub open spec fn responder_is_bound(stage: ResponderStage) -> bool {
    match stage {
        ResponderStage::Opening => false,
        ResponderStage::Binding => false,
        ResponderStage::Terminated(Outcome::Failed(Operation::OpenSocket)) => false,
        ResponderStage::Terminated(Outcome::Failed(Operation::Bind)) => false,
        _ => true,
    }
}

/// The confirmation follows the bind. After any history the line that
/// announces the endpoint has been asked for once if the socket is bound, and
/// not at all if it is not: while the bind is still to come, and when the
/// socket or the bind has failed, nothing has been written. The line is
/// asked for on the event that says the bind succeeded, and on no other.
pub proof fn law_announces_when_bound(endpoint: Seq<char>, history: Seq<EventView>)
    ensures
        prints(responder_actions(endpoint, history)) == if responder_is_bound(
            responder_stage_after(endpoint, history),
        ) {
            1nat
        } else {
            0nat
        },
        responder_actions(endpoint, history).last() is Print ==> {
            &&& history.len() > 0
            &&& history.last() == EventView::Completed
            &&& responder_actions(endpoint, history.drop_last()).last() == ActionView::Bind(
                endpoint,
            )
            &&& responder_actions(endpoint, history).last() == ActionView::Print(
                binding_line(endpoint),
            )
        },
    decreases history.len(),
{
    let actions = responder_actions(endpoint, history);
    if history.len() == 0 {
        assert(prints(actions.drop_last()) == 0);
    } else {
        law_announces_when_bound(endpoint, history.drop_last());
        lemma_responder_position(endpoint, history.drop_last());
        assert(actions.drop_last() =~= responder_actions(endpoint, history.drop_last()));
    }
}

/// Echo fidelity. After any history, a message that arrives while the
/// responder waits for one is sent back at once, byte for byte; and the
/// responder never sends anything but the message that has just arrived.
pub proof fn law_echo(endpoint: Seq<char>, history: Seq<EventView>, event: EventView)
    ensures
        (responder_actions(endpoint, history).last() is Receive && event is Received)
            ==> responder_actions(endpoint, history.push(event)).last() == ActionView::Send(
            event->Received_0,
        ),
        responder_actions(endpoint, history.push(event)).last() is Send ==> event
            == EventView::Received(
            responder_actions(endpoint, history.push(event)).last()->Send_0,
        ),
{
    lemma_responder_position(endpoint, history);
    assert(history.push(event).drop_last() =~= history);
}

/// Strict alternation. After any history, the action that follows a receive
/// is the reply or the end, never another receive; the action that follows a
/// reply is a receive or the end, never another reply. So no second message
/// is taken up before the first is answered, and at no time is more than one
/// request without its reply.
pub proof fn law_alternation(endpoint: Seq<char>, history: Seq<EventView>, event: EventView)
    ensures
        responder_actions(endpoint, history).last() is Receive ==> {
            ||| responder_actions(endpoint, history.push(event)).last() is Send
            ||| responder_actions(endpoint, history.push(event)).last() is Exit
        },
        responder_actions(endpoint, history).last() is Send ==> {
            ||| responder_actions(endpoint, history.push(event)).last() is Receive
            ||| responder_actions(endpoint, history.push(event)).last() is Exit
        },
        sends(responder_actions(endpoint, history)) <= receives(
            responder_actions(endpoint, history),
        ) <= sends(responder_actions(endpoint, history)) + 1,
{
    lemma_responder_position(endpoint, history);
    lemma_responder_balance(endpoint, history);
    assert(history.push(event).drop_last() =~= history);
}

/// How the receives and the replies of a responder stand to each other at
/// each stage: one receive ahead while it waits, even while it replies.
pub proof fn lemma_responder_balance(endpoint: Seq<char>, events: Seq<EventView>)
    ensures
        match responder_stage_after(endpoint, events) {
            ResponderStage::Awaiting => receives(responder_actions(endpoint, events)) == sends(
                responder_actions(endpoint, events),
            ) + 1,
            ResponderStage::Replying => receives(responder_actions(endpoint, events)) == sends(
                responder_actions(endpoint, events),
            ),
            ResponderStage::Terminated(_) => sends(responder_actions(endpoint, events))
                <= receives(responder_actions(endpoint, events)) <= sends(
                responder_actions(endpoint, events),
            ) + 1,
            _ => receives(responder_actions(endpoint, events)) == 0 && sends(
                responder_actions(endpoint, events),
            ) == 0,
        },
    decreases events.len(),
{
    let actions = responder_actions(endpoint, events);
    if events.len() == 0 {
        assert(sends(actions.drop_last()) == 0);
        assert(receives(actions.drop_last()) == 0);
    } else {
        lemma_responder_balance(endpoint, events.drop_last());
        assert(actions.drop_last() =~= responder_actions(endpoint, events.drop_last()));
    }
}

/// Failing is final. Once an operation fails the responder ends at once, and
/// a responder that has ended asks for nothing any more but to stop.
pub proof fn law_failure_is_final(endpoint: Seq<char>, history: Seq<EventView>, event: EventView)
    ensures
        event is Failed ==> responder_stage_after(endpoint, history.push(event)) is Terminated,
        responder_stage_after(endpoint, history) is Terminated ==> {
            &&& responder_stage_after(endpoint, history.push(event)) == responder_stage_after(
                endpoint,
                history,
            )
            &&& responder_actions(endpoint, history.push(event)).last() is Exit
        },
{
    assert(history.push(event).drop_last() =~= history);
}

/// A responder has no way to finish: if it has ended, an operation failed.
pub proof fn law_responder_never_finishes(endpoint: Seq<char>, events: Seq<EventView>)
    ensures
        responder_stage_after(endpoint, events) != ResponderStage::Terminated(Outcome::Finished),
    decreases events.len(),
{
    if events.len() > 0 {
        law_responder_never_finishes(endpoint, events.drop_last());
    }
}

/// A responder goes through its phases in one direction: from unstarted to
/// an open socket, to the loop, to the end, and never back.
pub proof fn law_responder_phases(endpoint: Seq<char>, history: Seq<EventView>, event: EventView)
    ensures
        phase_rank(responder_phase(responder_stage_after(endpoint, history))) <= phase_rank(
            responder_phase(responder_stage_after(endpoint, history.push(event))),
        ),
        responder_phase(responder_stage_after(endpoint, history)) != Phase::Measuring,
{
    assert(history.push(event).drop_last() =~= history);
}

/// The events of a run in which every operation succeeds, up to the requests
/// given: the socket, the bind and the line, and for each request its
/// arrival and the send of its reply.
pub open spec fn serving_events(requests: Seq<Seq<u8>>) -> Seq<EventView>
    decreases requests.len(),
{
    if requests.len() == 0 {
        seq![EventView::Completed, EventView::Completed, EventView::Completed]
    } else {
        serving_events(requests.drop_last()).push(EventView::Received(requests.last())).push(
            EventView::Completed,
        )
    }
}

/// A run in which every operation succeeds. However many requests have come,
/// and whatever they held, the responder has answered each one and waits for
/// the next: nothing but a failure makes it stop.
pub proof fn law_serves(endpoint: Seq<char>, requests: Seq<Seq<u8>>)
    ensures
        responder_stage_after(endpoint, serving_events(requests)) == ResponderStage::Awaiting,
        sends(responder_actions(endpoint, serving_events(requests))) == requests.len(),
        receives(responder_actions(endpoint, serving_events(requests))) == requests.len() + 1,
    decreases requests.len(),
{
    let events = serving_events(requests);
    let actions = responder_actions(endpoint, events);
    if requests.len() == 0 {
        let one = seq![EventView::Completed];
        let two = one.push(EventView::Completed);
        assert(one.drop_last() =~= Seq::<EventView>::empty());
        assert(two.drop_last() =~= one);
        assert(events.drop_last() =~= two);
        assert(responder_stage_after(endpoint, Seq::<EventView>::empty())
            == ResponderStage::Opening);
        lemma_responder_balance(endpoint, two);
        assert(actions.drop_last() =~= responder_actions(endpoint, two));
    } else {
        let before = serving_events(requests.drop_last());
        let asked = before.push(EventView::Received(requests.last()));
        law_serves(endpoint, requests.drop_last());
        assert(asked.drop_last() =~= before);
        assert(events.drop_last() =~= asked);
        let replied = responder_actions(endpoint, asked);
        assert(replied.drop_last() =~= responder_actions(endpoint, before));
        assert(actions.drop_last() =~= replied);
        assert(sends(actions) == sends(replied));
    }
    lemma_responder_balance(endpoint, events);
}

} // verus!
