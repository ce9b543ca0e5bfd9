//! The boundary between a session and the transport that carries it.
//!
//! A session does no input or output of its own. It names one operation at a
//! time, an `Action`, for its caller to perform, and is told how that went, an
//! `Event`, before it names the next. The operations are those of a socket
//! (open, bind or connect, send, receive), a line of output, and a clock.

use crate::message::message_bytes;
use vstd::prelude::*;

verus! {

/// The side of the request/reply pair that a socket takes.
#[derive(Clone, Copy, Debug, PartialEq, Eq, Structural)]
pub enum Role {
    /// The side that answers: it receives, and sends after that.
    Responder,
    /// The side that asks: it sends, and receives after that.
    Requester,
}

/// The kinds of operation that can fail. All but one are what a session asks
/// its caller for; `Allocate` is the making of a message, which the session
/// does itself.
#[derive(Clone, Copy, Debug, PartialEq, Eq, Structural)]
pub enum Operation {
    OpenSocket,
    Print,
    Bind,
    Connect,
    StartClock,
    Allocate,
    Send,
    Receive,
    Report,
}

/// What an operation is called in a line that tells of its failure.
pub open spec fn operation_text(operation: Operation) -> Seq<char> {
    match operation {
        Operation::OpenSocket => "opening the socket"@,
        Operation::Print => "writing to the standard output"@,
        Operation::Bind => "binding"@,
        Operation::Connect => "connecting"@,
        Operation::StartClock => "starting the clock"@,
        Operation::Allocate => "making a message"@,
        Operation::Send => "sending"@,
        Operation::Receive => "receiving"@,
        Operation::Report => "reporting"@,
    }
}

impl Operation {
    /// What the operation is called in a line that tells of its failure.
    pub fn describe(self) -> (s: &'static str)
        ensures
            s@ == operation_text(self),
    {
        match self {
            Operation::OpenSocket => "opening the socket",
            Operation::Print => "writing to the standard output",
            Operation::Bind => "binding",
            Operation::Connect => "connecting",
            Operation::StartClock => "starting the clock",
            Operation::Allocate => "making a message",
            Operation::Send => "sending",
            Operation::Receive => "receiving",
            Operation::Report => "reporting",
        }
    }
}

/// How a session ended.
#[derive(Clone, Copy, Debug, PartialEq, Eq, Structural)]
pub enum Outcome {
    /// All that was to be done is done.
    Finished,
    /// The operation named did not succeed, and the session gave up at once.
    Failed(Operation),
}

/// How far a session has come.
#[derive(Clone, Copy, Debug, PartialEq, Eq, Structural)]
pub enum Phase {
    /// No socket is open yet.
    Unstarted,
    /// The socket is open, and is being attached and announced.
    SocketOpen,
    /// The responder's exchange: receive one, send it back.
    Looping,
    /// The driver's exchange, from the start of the clock to the report.
    Measuring,
    /// Nothing more will be done.
    Terminated,
}

/// The place of a phase in the order in which a session goes through them.
/// A session loops or measures, never both, so the two share a place.
pub open spec fn phase_rank(phase: Phase) -> int {
    match phase {
        Phase::Unstarted => 0,
        Phase::SocketOpen => 1,
        Phase::Looping => 2,
        Phase::Measuring => 2,
        Phase::Terminated => 3,
    }
}

/// What the caller reports of the operation that it was asked for.
#[derive(Debug, PartialEq, Eq)]
pub enum Event {
    /// It succeeded, and brought nothing back.
    Completed,
    /// It was a receive and succeeded: this message arrived.
    Received(zmq::Message),
    /// It did not succeed.
    Failed,
}

/// An `Event`, a message in it taken as its bytes.
pub enum EventView {
    Completed,
    Received(Seq<u8>),
    Failed,
}

impl View for Event {
    type V = EventView;

    open spec fn view(&self) -> EventView {
        match *self {
            Event::Completed => EventView::Completed,
            Event::Received(message) => EventView::Received(message_bytes(message)),
            Event::Failed => EventView::Failed,
        }
    }
}

/// What a session asks its caller to do next.
#[derive(Debug, PartialEq, Eq)]
pub enum Action {
    /// Open a socket of this role.
    OpenSocket(Role),
    /// Write this line to the standard output.
    Print(String),
    /// Bind the socket to this endpoint.
    Bind(String),
    /// Connect the socket to this endpoint.
    Connect(String),
    /// Take the time: the measurement starts here.
    StartClock,
    /// Send this message.
    Send(zmq::Message),
    /// Wait for a message and receive it into this one.
    Receive(zmq::Message),
    /// Take the time again and write the summary of the exchange of
    /// `messages` messages of `size` bytes: the time that has passed since
    /// the clock was started, and that time divided by `messages`.
    Report { messages: i32, size: usize },
    /// Stop; the session has ended in this way.
    Exit(Outcome),
}

/// An `Action`, a text in it taken as its characters and a message as its
/// bytes.
pub enum ActionView {
    OpenSocket(Role),
    Print(Seq<char>),
    Bind(Seq<char>),
    Connect(Seq<char>),
    StartClock,
    Send(Seq<u8>),
    Receive(Seq<u8>),
    Report { messages: i32, size: usize },
    Exit(Outcome),
}

impl View for Action {
    type V = ActionView;

    open spec fn view(&self) -> ActionView {
        match *self {
            Action::OpenSocket(role) => ActionView::OpenSocket(role),
            Action::Print(line) => ActionView::Print(line@),
            Action::Bind(endpoint) => ActionView::Bind(endpoint@),
            Action::Connect(endpoint) => ActionView::Connect(endpoint@),
            Action::StartClock => ActionView::StartClock,
            Action::Send(message) => ActionView::Send(message_bytes(message)),
            Action::Receive(buffer) => ActionView::Receive(message_bytes(buffer)),
            Action::Report { messages, size } => ActionView::Report { messages, size },
            Action::Exit(outcome) => ActionView::Exit(outcome),
        }
    }
}

/// How many of `actions` write a line.
pub open spec fn prints(actions: Seq<ActionView>) -> nat
    decreases actions.len(),
{
    if actions.len() == 0 {
        0
    } else {
        prints(actions.drop_last()) + if actions.last() is Print {
            1nat
        } else {
            0nat
        }
    }
}

/// How many of `actions` send a message.
pub open spec fn sends(actions: Seq<ActionView>) -> nat
    decreases actions.len(),
{
    if actions.len() == 0 {
        0
    } else {
        sends(actions.drop_last()) + if actions.last() is Send {
            1nat
        } else {
            0nat
        }
    }
}

/// How many of `actions` wait for a message.
pub open spec fn receives(actions: Seq<ActionView>) -> nat
    decreases actions.len(),
{
    if actions.len() == 0 {
        0
    } else {
        receives(actions.drop_last()) + if actions.last() is Receive {
            1nat
        } else {
            0nat
        }
    }
}

} // verus!
