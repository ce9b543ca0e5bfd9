//! The driver: the side of the benchmark that connects, exchanges messages of
//! a fixed size with the responder, one round trip after the other, and
//! reports how long that took.
//!
//! It asks for a socket and connects it. Only when the socket is connected
//! does it announce the endpoint, so a connect that fails leaves nothing
//! written. Then it starts the clock. A round trip is one send followed by
//! one receive. For a count of `messages` the driver makes one round trip
//! less than that, and none where the count is below two; the mean that it
//! reports is nevertheless taken over the whole count. The first operation
//! that fails ends the run, and nothing is reported then.

use crate::endpoint::Endpoint;
use crate::message::zeros;
use crate::transport::{Action, ActionView, Event, EventView, Operation, Outcome, Phase, Role};
use crate::transport::{phase_rank, prints, receives, sends};
use vstd::prelude::*;
use vstd::string::*;

verus! {

/// Where a driver stands: which operation it has asked for and waits to hear
/// of. `done` counts the round trips that are complete.
#[derive(Clone, Copy, Debug, PartialEq, Eq, Structural)]
pub enum DriverStage {
    /// It has asked for a socket.
    Opening,
    /// It has asked to connect.
    Connecting,
    /// The socket is connected, and it has asked for the line that says so.
    Announcing,
    /// It has asked for the clock to be started.
    Timing,
    /// It has asked to send the message of the next round trip.
    Sending { done: i32 },
    /// It has asked to receive the reply of that round trip.
    Receiving { done: i32 },
    /// It has asked for the report.
    Reporting,
    /// It has ended.
    Terminated(Outcome),
}

/// What a driver is to do: where to connect, the count of messages, and the
/// size of each in bytes.
pub struct Benchmark {
    pub endpoint: Seq<char>,
    pub messages: i32,
    pub size: usize,
}

/// A driver on its way.
pub struct Driver {
    endpoint: String,
    messages: i32,
    size: usize,
    stage: DriverStage,
}

/// A `Driver`: what it is to do, and where it stands.
pub struct DriverView {
    pub benchmark: Benchmark,
    pub stage: DriverStage,
}

impl View for Driver {
    type V = DriverView;

    closed spec fn view(&self) -> DriverView {
        DriverView {
            benchmark: Benchmark {
                endpoint: self.endpoint@,
                messages: self.messages,
                size: self.size,
            },
            stage: self.stage,
        }
    }
}

/// The round trips that a driver makes for a count of `messages`: one less
/// than the count, and none for a count below one.
pub open spec fn round_trips(messages: i32) -> int {
    if messages >= 1 {
        messages - 1
    } else {
        0
    }
}

/// The line that announces the endpoint of a driver, once it is connected.
pub open spec fn connecting_line(endpoint: Seq<char>) -> Seq<char> {
    "Connecting to "@ + endpoint
}

/// The phase that a stage of the driver belongs to.
pub open spec fn driver_phase(stage: DriverStage) -> Phase {
    match stage {
        DriverStage::Opening => Phase::Unstarted,
        DriverStage::Connecting => Phase::SocketOpen,
        DriverStage::Announcing => Phase::SocketOpen,
        DriverStage::Timing => Phase::Measuring,
        DriverStage::Sending { .. } => Phase::Measuring,
        DriverStage::Receiving { .. } => Phase::Measuring,
        DriverStage::Reporting => Phase::Measuring,
        DriverStage::Terminated(_) => Phase::Terminated,
    }
}

/// Giving up because `operation` did not succeed.
pub open spec fn driver_stop(operation: Operation) -> (DriverStage, ActionView) {
    (
        DriverStage::Terminated(Outcome::Failed(operation)),
        ActionView::Exit(Outcome::Failed(operation)),
    )
}

/// What a driver does when `done` round trips are complete: the report if
/// these are all, else the send of the next one, a message of `size` zero
/// bytes. Where no message can have that size, it gives up.
pub open spec fn driver_round(benchmark: Benchmark, done: int) -> (DriverStage, ActionView) {
    if done >= round_trips(benchmark.messages) {
        (
            DriverStage::Reporting,
            ActionView::Report { messages: benchmark.messages, size: benchmark.size },
        )
    } else if benchmark.size > isize::MAX {
        driver_stop(Operation::Allocate)
    } else {
        (DriverStage::Sending { done: done as i32 }, ActionView::Send(zeros(benchmark.size as nat)))
    }
}

/// The step of a driver for `benchmark`: the stage that follows `stage` on
/// `event`, and the action asked for on the way.
///
/// The order is: the socket, the connect, the line that announces the
/// endpoint, the clock, the round trips, the report. Each stage waits for the
/// one event that says its operation succeeded; a receive succeeds with
/// whatever message arrives. On any other event the operation counts as
/// failed, and the driver ends. A driver that has ended stays so.
pub open spec fn driver_next(benchmark: Benchmark, stage: DriverStage, event: EventView) -> (
    DriverStage,
    ActionView,
) {
    match stage {
        DriverStage::Opening => match event {
            EventView::Completed => (
                DriverStage::Connecting,
                ActionView::Connect(benchmark.endpoint),
            ),
            _ => driver_stop(Operation::OpenSocket),
        },
        DriverStage::Connecting => match event {
            EventView::Completed => (
                DriverStage::Announcing,
                ActionView::Print(connecting_line(benchmark.endpoint)),
            ),
            _ => driver_stop(Operation::Connect),
        },
        DriverStage::Announcing => match event {
            EventView::Completed => (DriverStage::Timing, ActionView::StartClock),
            _ => driver_stop(Operation::Print),
        },
        DriverStage::Timing => match event {
            EventView::Completed => driver_round(benchmark, 0),
            _ => driver_stop(Operation::StartClock),
        },
        DriverStage::Sending { done } => match event {
            EventView::Completed => if benchmark.size > isize::MAX {
                driver_stop(Operation::Allocate)
            } else {
                (DriverStage::Receiving { done }, ActionView::Receive(zeros(benchmark.size as nat)))
            },
            _ => driver_stop(Operation::Send),
        },
        DriverStage::Receiving { done } => match event {
            EventView::Received(_) => driver_round(benchmark, done + 1),
            _ => driver_stop(Operation::Receive),
        },
        DriverStage::Reporting => match event {
            EventView::Completed => (
                DriverStage::Terminated(Outcome::Finished),
                ActionView::Exit(Outcome::Finished),
            ),
            _ => driver_stop(Operation::Report),
        },
        DriverStage::Terminated(outcome) => (stage, ActionView::Exit(outcome)),
    }
}

/// The stage of a driver that has heard of `events`, in this order.
pub open spec fn driver_stage_after(benchmark: Benchmark, events: Seq<EventView>) -> DriverStage
    decreases events.len(),
{
    if events.len() == 0 {
        DriverStage::Opening
    } else {
        driver_next(
            benchmark,
            driver_stage_after(benchmark, events.drop_last()),
            events.last(),
        ).0
    }
}

/// All the actions that a driver has asked for when it has heard of
/// `events`: the first of its own accord, and one more on each event.
pub open spec fn driver_actions(benchmark: Benchmark, events: Seq<EventView>) -> Seq<ActionView>
    decreases events.len(),
{
    if events.len() == 0 {
        seq![ActionView::OpenSocket(Role::Requester)]
    } else {
        driver_actions(benchmark, events.drop_last()).push(
            driver_next(
                benchmark,
                driver_stage_after(benchmark, events.drop_last()),
                events.last(),
            ).1,
        )
    }
}

impl DriverStage {
    /// The phase that the stage belongs to.
    pub fn phase(self) -> (phase: Phase)
        ensures
            phase == driver_phase(self),
    {
        match self {
            DriverStage::Opening => Phase::Unstarted,
            DriverStage::Connecting => Phase::SocketOpen,
            DriverStage::Announcing => Phase::SocketOpen,
            DriverStage::Timing => Phase::Measuring,
            DriverStage::Sending { .. } => Phase::Measuring,
            DriverStage::Receiving { .. } => Phase::Measuring,
            DriverStage::Reporting => Phase::Measuring,
            DriverStage::Terminated(_) => Phase::Terminated,
        }
    }
}

impl Driver {
    /// The round trips that a driver makes for a count of `messages`.
    pub fn round_trips(messages: i32) -> (rounds: i32)
        ensures
            rounds == round_trips(messages),
    {
        if messages >= 1 {
            messages - 1
        } else {
            0
        }
    }

    /// A driver that connects to `endpoint` for a count of `messages`, each
    /// of `size` bytes, and the first thing it asks for: a socket of the
    /// asking side. From here on the endpoint is its text.
    pub fn begin(endpoint: &Endpoint, messages: i32, size: usize) -> (r: (Driver, Action))
        ensures
            r.0@ == (DriverView {
                benchmark: Benchmark { endpoint: endpoint@.text(), messages, size },
                stage: DriverStage::Opening,
            }),
            r.1@ == ActionView::OpenSocket(Role::Requester),
    {
        (
            Driver { endpoint: endpoint.text(), messages, size, stage: DriverStage::Opening },
            Action::OpenSocket(Role::Requester),
        )
    }

    /// Where the driver stands.
    pub fn stage(&self) -> (stage: DriverStage)
        ensures
            stage == self@.stage,
    {
        self.stage
    }

    /// The endpoint that the driver connects to, as it is written.
    pub fn endpoint(&self) -> (endpoint: &str)
        ensures
            endpoint@ == self@.benchmark.endpoint,
    {
        self.endpoint.as_str()
    }

    /// The count of messages, over which the mean is taken.
    pub fn messages(&self) -> (messages: i32)
        ensures
            messages == self@.benchmark.messages,
    {
        self.messages
    }

    /// The size of each message in bytes.
    pub fn size(&self) -> (size: usize)
        ensures
            size == self@.benchmark.size,
    {
        self.size
    }

    /// Takes the driver one step on: told of `event`, it moves to its next
    /// stage and asks for its next action, both as `driver_next` says.
    pub fn step(self, event: Event) -> (r: (Driver, Action))
        ensures
            r.0@.benchmark == self@.benchmark,
            (r.0@.stage, r.1@) == driver_next(self@.benchmark, self@.stage, event@),
    {
        let Driver { endpoint, messages, size, stage } = self;
        match stage {
            DriverStage::Opening => match event {
                Event::Completed => {
                    let target = endpoint.clone();
                    (
                        Driver { endpoint, messages, size, stage: DriverStage::Connecting },
                        Action::Connect(target),
                    )
                },
                _ => Self::stop(endpoint, messages, size, Operation::OpenSocket),
            },
            DriverStage::Connecting => match event {
                Event::Completed => {
                    let mut line = String::from_str("Connecting to ");
                    line.append(endpoint.as_str());
                    (
                        Driver { endpoint, messages, size, stage: DriverStage::Announcing },
                        Action::Print(line),
                    )
                },
                _ => Self::stop(endpoint, messages, size, Operation::Connect),
            },
            DriverStage::Announcing => match event {
                Event::Completed => (
                    Driver { endpoint, messages, size, stage: DriverStage::Timing },
                    Action::StartClock,
                ),
                _ => Self::stop(endpoint, messages, size, Operation::Print),
            },
            DriverStage::Timing => match event {
                Event::Completed => Self::round(endpoint, messages, size, 0),
                _ => Self::stop(endpoint, messages, size, Operation::StartClock),
            },
            DriverStage::Sending { done } => match event {
                Event::Completed => if size > isize::MAX as usize {
                    Self::stop(endpoint, messages, size, Operation::Allocate)
                } else {
                    (
                        Driver { endpoint, messages, size, stage: DriverStage::Receiving { done } },
                        Action::Receive(zmq::Message::with_size(size)),
                    )
                },
                _ => Self::stop(endpoint, messages, size, Operation::Send),
            },
            DriverStage::Receiving { done } => match event {
                Event::Received(_) => Self::round(endpoint, messages, size, done as i64 + 1),
                _ => Self::stop(endpoint, messages, size, Operation::Receive),
            },
            DriverStage::Reporting => match event {
                Event::Completed => (
                    Driver {
                        endpoint,
                        messages,
                        size,
                        stage: DriverStage::Terminated(Outcome::Finished),
                    },
                    Action::Exit(Outcome::Finished),
                ),
                _ => Self::stop(endpoint, messages, size, Operation::Report),
            },
            DriverStage::Terminated(outcome) => (
                Driver { endpoint, messages, size, stage },
                Action::Exit(outcome),
            ),
        }
    }

    /// Goes on when `done` round trips are complete.
    fn round(endpoint: String, messages: i32, size: usize, done: i64) -> (r: (Driver, Action))
        requires
            i32::MIN <= done <= i32::MAX + 1,
        ensures
            r.0@.benchmark == (Benchmark { endpoint: endpoint@, messages, size }),
            (r.0@.stage, r.1@) == driver_round(
                Benchmark { endpoint: endpoint@, messages, size },
                done as int,
            ),
    {
        if done >= Self::round_trips(messages) as i64 {
            (
                Driver { endpoint, messages, size, stage: DriverStage::Reporting },
                Action::Report { messages, size },
            )
        } else if size > isize::MAX as usize {
            Self::stop(endpoint, messages, size, Operation::Allocate)
        } else {
            let stage = DriverStage::Sending { done: done as i32 };
            let payload = zmq::Message::with_size(size);
            (Driver { endpoint, messages, size, stage }, Action::Send(payload))
        }
    }

    /// Gives up because `operation` did not succeed.
    fn stop(endpoint: String, messages: i32, size: usize, operation: Operation) -> (r: (
        Driver,
        Action,
    ))
        ensures
            r.0@.benchmark == (Benchmark { endpoint: endpoint@, messages, size }),
            (r.0@.stage, r.1@) == driver_stop(operation),
    {
        let outcome = Outcome::Failed(operation);
        (
            Driver { endpoint, messages, size, stage: DriverStage::Terminated(outcome) },
            Action::Exit(outcome),
        )
    }
}

/// What holds of a driver for `benchmark` that stands at `stage` and has asked
/// for `actions`: which action was the last, how many round trips are begun
/// and how many complete.
pub open spec fn driver_standing(
    benchmark: Benchmark,
    stage: DriverStage,
    actions: Seq<ActionView>,
) -> bool {
    let rounds = round_trips(benchmark.messages);
    match stage {
        DriverStage::Opening => {
            &&& actions.last() == ActionView::OpenSocket(Role::Requester)
            &&& sends(actions) == 0
            &&& receives(actions) == 0
        },
        DriverStage::Connecting => {
            &&& actions.last() == ActionView::Connect(benchmark.endpoint)
            &&& sends(actions) == 0
            &&& receives(actions) == 0
        },
        DriverStage::Announcing => {
            &&& actions.last() == ActionView::Print(connecting_line(benchmark.endpoint))
            &&& sends(actions) == 0
            &&& receives(actions) == 0
        },
        DriverStage::Timing => {
            &&& actions.last() == ActionView::StartClock
            &&& sends(actions) == 0
            &&& receives(actions) == 0
        },
        DriverStage::Sending { done } => {
            &&& 0 <= done < rounds
            &&& benchmark.size <= isize::MAX
            &&& actions.last() == ActionView::Send(zeros(benchmark.size as nat))
            &&& sends(actions) == done + 1
            &&& receives(actions) == done
        },
        DriverStage::Receiving { done } => {
            &&& 0 <= done < rounds
            &&& benchmark.size <= isize::MAX
            &&& actions.last() == ActionView::Receive(zeros(benchmark.size as nat))
            &&& sends(actions) == done + 1
            &&& receives(actions) == done + 1
        },
        DriverStage::Reporting => {
            &&& actions.last() == ActionView::Report {
                messages: benchmark.messages,
                size: benchmark.size,
            }
            &&& sends(actions) == rounds
            &&& receives(actions) == rounds
        },
        DriverStage::Terminated(Outcome::Finished) => {
            &&& actions.last() == ActionView::Exit(Outcome::Finished)
            &&& sends(actions) == rounds
            &&& receives(actions) == rounds
        },
        DriverStage::Terminated(outcome) => {
            &&& actions.last() == ActionView::Exit(outcome)
            &&& receives(actions) <= sends(actions) <= rounds
            &&& sends(actions) <= receives(actions) + 1
        },
    }
}

/// After any events a driver stands as `driver_standing` says.
pub proof fn lemma_driver_position(benchmark: Benchmark, events: Seq<EventView>)
    ensures
        driver_actions(benchmark, events).len() == events.len() + 1,
        driver_standing(
            benchmark,
            driver_stage_after(benchmark, events),
            driver_actions(benchmark, events),
        ),
    decreases events.len(),
{
    let actions = driver_actions(benchmark, events);
    if events.len() == 0 {
        assert(sends(actions.drop_last()) == 0);
        assert(receives(actions.drop_last()) == 0);
    } else {
        lemma_driver_position(benchmark, events.drop_last());
        assert(actions.drop_last() =~= driver_actions(benchmark, events.drop_last()));
    }
}

/// Whether a driver at `stage` has got as far as its connected socket: it has
/// if it stands past the connect, or has ended on an operation that comes
/// after the connect.
pub open spec fn driver_is_connected(stage: DriverStage) -> bool {
    match stage {
        DriverStage::Opening => false,
        DriverStage::Connecting => false,
        DriverStage::Terminated(Outcome::Failed(Operation::OpenSocket)) => false,
        DriverStage::Terminated(Outcome::Failed(Operation::Connect)) => false,
        _ => true,
    }
}

/// The confirmation follows the connect. After any history the line that
/// announces the endpoint has been asked for once if the socket is
/// connected, and not at all if it is not: while the connect is still to
/// come, and when the socket or the connect has failed, nothing has been
/// written. The line is asked for on the event that says the connect
/// succeeded, and on no other.
pub proof fn law_announces_when_connected(benchmark: Benchmark, history: Seq<EventView>)
    ensures
        prints(driver_actions(benchmark, history)) == if driver_is_connected(
            driver_stage_after(benchmark, history),
        ) {
            1nat
        } else {
            0nat
        },
        driver_actions(benchmark, history).last() is Print ==> {
            &&& history.len() > 0
            &&& history.last() == EventView::Completed
            &&& driver_actions(benchmark, history.drop_last()).last() == ActionView::Connect(
                benchmark.endpoint,
            )
            &&& driver_actions(benchmark, history).last() == ActionView::Print(
                connecting_line(benchmark.endpoint),
            )
        },
    decreases history.len(),
{
    let actions = driver_actions(benchmark, history);
    if history.len() == 0 {
        assert(prints(actions.drop_last()) == 0);
    } else {
        law_announces_when_connected(benchmark, history.drop_last());
        lemma_driver_position(benchmark, history.drop_last());
        assert(actions.drop_last() =~= driver_actions(benchmark, history.drop_last()));
    }
}

/// The count of round trips. After any history the driver has begun no more
/// round trips than `round_trips` allows, and never a second one before the
/// first is complete. It asks for the report only when exactly that many are
/// complete, and the report names the whole count of messages, one more than
/// the round trips made, as what the mean is taken over. A driver that has
/// finished has made them all.
pub proof fn law_round_trips(benchmark: Benchmark, history: Seq<EventView>)
    ensures
        receives(driver_actions(benchmark, history)) <= sends(driver_actions(benchmark, history))
            <= round_trips(benchmark.messages),
        sends(driver_actions(benchmark, history)) <= receives(driver_actions(benchmark, history))
            + 1,
        driver_actions(benchmark, history).last() is Report ==> {
            &&& driver_actions(benchmark, history).last() == ActionView::Report {
                messages: benchmark.messages,
                size: benchmark.size,
            }
            &&& sends(driver_actions(benchmark, history)) == round_trips(benchmark.messages)
            &&& receives(driver_actions(benchmark, history)) == round_trips(benchmark.messages)
        },
        driver_stage_after(benchmark, history) == DriverStage::Terminated(Outcome::Finished) ==> {
            &&& sends(driver_actions(benchmark, history)) == round_trips(benchmark.messages)
            &&& receives(driver_actions(benchmark, history)) == round_trips(benchmark.messages)
        },
{
    lemma_driver_position(benchmark, history);
}

/// The payload. Every message that the driver sends, and every message that
/// it hands out to receive into, holds `size` bytes, each of them zero.
pub proof fn law_payload(benchmark: Benchmark, history: Seq<EventView>)
    ensures
        driver_actions(benchmark, history).last() is Send ==> driver_actions(
            benchmark,
            history,
        ).last() == ActionView::Send(zeros(benchmark.size as nat)),
        driver_actions(benchmark, history).last() is Receive ==> driver_actions(
            benchmark,
            history,
        ).last() == ActionView::Receive(zeros(benchmark.size as nat)),
{
    lemma_driver_position(benchmark, history);
}

/// Send and receive take turns. After any history, the action that follows a
/// send is the receive of its reply, or the end; the action that follows a
/// receive is the next send, the report, or the end.
pub proof fn law_driver_alternation(
    benchmark: Benchmark,
    history: Seq<EventView>,
    event: EventView,
)
    ensures
        driver_actions(benchmark, history).last() is Send ==> {
            ||| driver_actions(benchmark, history.push(event)).last() is Receive
            ||| driver_actions(benchmark, history.push(event)).last() is Exit
        },
        driver_actions(benchmark, history).last() is Receive ==> {
            ||| driver_actions(benchmark, history.push(event)).last() is Send
            ||| driver_actions(benchmark, history.push(event)).last() is Report
            ||| driver_actions(benchmark, history.push(event)).last() is Exit
        },
{
    lemma_driver_position(benchmark, history);
    assert(history.push(event).drop_last() =~= history);
}

/// Failing is final. Once an operation fails the driver ends at once, and a
/// driver that has ended asks for nothing any more but to stop: after a
/// failure there is no report.
pub proof fn law_driver_failure_is_final(
    benchmark: Benchmark,
    history: Seq<EventView>,
    event: EventView,
)
    ensures
        event is Failed ==> driver_stage_after(benchmark, history.push(event)) is Terminated,
        (event is Failed && !(driver_stage_after(benchmark, history) is Terminated))
            ==> driver_stage_after(benchmark, history.push(event)) != DriverStage::Terminated(
            Outcome::Finished,
        ),
        driver_stage_after(benchmark, history) is Terminated ==> {
            &&& driver_stage_after(benchmark, history.push(event)) == driver_stage_after(
                benchmark,
                history,
            )
            &&& driver_actions(benchmark, history.push(event)).last() is Exit
        },
{
    assert(history.push(event).drop_last() =~= history);
}

/// A driver goes through its phases in one direction: from unstarted to an
/// open socket, to the measurement, to the end, and never back.
pub proof fn law_driver_phases(benchmark: Benchmark, history: Seq<EventView>, event: EventView)
    ensures
        phase_rank(driver_phase(driver_stage_after(benchmark, history))) <= phase_rank(
            driver_phase(driver_stage_after(benchmark, history.push(event))),
        ),
        driver_phase(driver_stage_after(benchmark, history)) != Phase::Looping,
{
    assert(history.push(event).drop_last() =~= history);
}

/// The events of a run in which every operation succeeds, up to the replies
/// given: the socket, the connect, the line and the clock, and for each reply
/// its send and its arrival.
pub open spec fn smooth_events(replies: Seq<Seq<u8>>) -> Seq<EventView>
    decreases replies.len(),
{
    if replies.len() == 0 {
        seq![
            EventView::Completed,
            EventView::Completed,
            EventView::Completed,
            EventView::Completed,
        ]
    } else {
        smooth_events(replies.drop_last()).push(EventView::Completed).push(
            EventView::Received(replies.last()),
        )
    }
}

/// A run in which every operation succeeds. Whatever the replies hold, the
/// driver goes from one round trip to the next until `round_trips` of them
/// are complete, asks for the report at that point and at no other, and
/// finishes when the report is made. Where there is a round trip to make, a
/// message must be able to have the size asked for.
pub proof fn law_smooth_run(benchmark: Benchmark, replies: Seq<Seq<u8>>)
    requires
        replies.len() <= round_trips(benchmark.messages),
        round_trips(benchmark.messages) > 0 ==> benchmark.size <= isize::MAX,
    ensures
        replies.len() < round_trips(benchmark.messages) ==> driver_stage_after(
            benchmark,
            smooth_events(replies),
        ) == (DriverStage::Sending { done: replies.len() as i32 }),
        replies.len() == round_trips(benchmark.messages) ==> {
            &&& driver_stage_after(benchmark, smooth_events(replies)) == DriverStage::Reporting
            &&& driver_stage_after(benchmark, smooth_events(replies).push(EventView::Completed))
                == DriverStage::Terminated(Outcome::Finished)
        },
    decreases replies.len(),
{
    let events = smooth_events(replies);
    if replies.len() == 0 {
        let one = seq![EventView::Completed];
        let two = one.push(EventView::Completed);
        let three = two.push(EventView::Completed);
        assert(one.drop_last() =~= Seq::<EventView>::empty());
        assert(two.drop_last() =~= one);
        assert(three.drop_last() =~= two);
        assert(events.drop_last() =~= three);
        assert(driver_stage_after(benchmark, Seq::<EventView>::empty()) == DriverStage::Opening);
        assert(driver_stage_after(benchmark, one) == DriverStage::Connecting);
        assert(driver_stage_after(benchmark, two) == DriverStage::Announcing);
        assert(driver_stage_after(benchmark, three) == DriverStage::Timing);
    } else {
        law_smooth_run(benchmark, replies.drop_last());
        let sent = smooth_events(replies.drop_last()).push(EventView::Completed);
        assert(sent.drop_last() =~= smooth_events(replies.drop_last()));
        assert(events.drop_last() =~= sent);
        assert(driver_stage_after(benchmark, sent) == (DriverStage::Receiving {
            done: (replies.len() - 1) as i32,
        }));
    }
    assert(events.push(EventView::Completed).drop_last() =~= events);
}

} // verus!
