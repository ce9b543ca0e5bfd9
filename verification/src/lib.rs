//! The rules of a request/reply latency benchmark over ZeroMQ: how its
//! arguments are read, which endpoint they name, and what each side of the
//! benchmark does next, step by step.
//!
//! A run has one of two sides. The responder binds and sends every message
//! back as it came. The driver connects, sends messages of a fixed size, waits
//! for each reply, and reports how long the exchange took.
//!
//! Nothing here touches a socket, the standard output or a clock. `command`
//! turns the arguments of a run into a `Command`, or says what is wrong with
//! them. `responder` and `driver` each hold a session that names one
//! operation at a time for its caller to perform (the types are in
//! `transport`) and is told how that went before it names the next. What
//! holds of every run of a session is stated and proved beside it.
//!
//! - `decimal`: numerals, read and written
//! - `endpoint`: protocols and endpoints
//! - `error`: what can be wrong with the arguments
//! - `command`: from arguments to a command
//! - `message`: what is taken on trust of a `zmq::Message`
//! - `transport`: actions, events, outcomes
//! - `responder`: the side that binds
//! - `driver`: the side that connects

pub mod command;
pub mod decimal;
pub mod driver;
pub mod endpoint;
pub mod error;
pub mod message;
pub mod responder;
pub mod transport;
