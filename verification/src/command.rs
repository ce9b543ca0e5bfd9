//! From the arguments of a run to the command that they name.
//!
//! The arguments are texts, as a command line gives them, each of them there
//! or not. A run either binds and answers, or connects and measures.

use crate::decimal::{denoted_i32, denoted_usize, parse_i32, parse_usize};
use crate::endpoint::{resolution, resolve, resolves_to, same_text, Endpoint, EndpointView};
use crate::error::{Argument, ConfigError, ConfigErrorView};
use vstd::prelude::*;

verus! {

/// The arguments of a run, as they were given.
#[derive(Debug, PartialEq, Eq)]
pub struct Arguments {
    /// `--protocol`: `tcp` where it is not given.
    pub protocol: Option<String>,
    /// `--address`: `127.0.0.1` where it is not given.
    pub address: Option<String>,
    /// `--port`: `4321` where it is not given.
    pub port: Option<String>,
    /// The subcommand: `bind` or `connect`.
    pub subcommand: String,
    /// `--num_msgs` of `connect`: `100` where it is not given.
    pub num_msgs: Option<String>,
    /// `--num_bytes` of `connect`: `1000000` where it is not given.
    pub num_bytes: Option<String>,
}

/// What a run does.
#[derive(Debug, PartialEq, Eq)]
pub enum Command {
    /// Bind to `endpoint` and send back whatever arrives.
    Bind { endpoint: Endpoint },
    /// Connect to `endpoint` and time the exchange of messages of `size`
    /// bytes, `messages` being the count that the mean is taken over.
    Connect { endpoint: Endpoint, messages: i32, size: usize },
}

/// A `Command` with its endpoint as an `EndpointView`.
pub enum CommandView {
    Bind { endpoint: EndpointView },
    Connect { endpoint: EndpointView, messages: i32, size: usize },
}

impl View for Command {
    type V = CommandView;

    open spec fn view(&self) -> CommandView {
        match *self {
            Command::Bind { endpoint } => CommandView::Bind { endpoint: endpoint@ },
            Command::Connect { endpoint, messages, size } => CommandView::Connect {
                endpoint: endpoint@,
                messages,
                size,
            },
        }
    }
}

/// The text of an argument: the one given, or else the default.
pub open spec fn given_or(given: Option<String>, otherwise: Seq<char>) -> Seq<char> {
    match given {
        Some(text) => text@,
        None => otherwise,
    }
}

/// The `i32` that the text of `argument` denotes, or the text as one that
/// denotes none.
pub open spec fn i32_of(argument: Argument, text: Seq<char>) -> Result<i32, ConfigErrorView> {
    match denoted_i32(text) {
        Some(v) => Ok(v),
        None => Err(ConfigErrorView::InvalidNumber { argument, text }),
    }
}

/// The `usize` that the text of `argument` denotes, or the text as one that
/// denotes none.
pub open spec fn usize_of(argument: Argument, text: Seq<char>) -> Result<usize, ConfigErrorView> {
    match denoted_usize(text) {
        Some(v) => Ok(v),
        None => Err(ConfigErrorView::InvalidNumber { argument, text }),
    }
}

/// The endpoint that the arguments name. The port is read first, whatever the
/// protocol, and the protocol is looked at only if the port is a numeral.
pub open spec fn address_of(arguments: Arguments) -> Result<EndpointView, ConfigErrorView> {
    match i32_of(Argument::Port, given_or(arguments.port, "4321"@)) {
        Ok(port) => resolution(
            given_or(arguments.protocol, "tcp"@),
            given_or(arguments.address, "127.0.0.1"@),
            port,
        ),
        Err(e) => Err(e),
    }
}

/// The command that the arguments name. What is wrong with the endpoint is
/// found first, then the subcommand, then the count, then the size.
pub open spec fn planned(arguments: Arguments) -> Result<CommandView, ConfigErrorView> {
    match address_of(arguments) {
        Err(e) => Err(e),
        Ok(endpoint) => if arguments.subcommand@ == "bind"@ {
            Ok(CommandView::Bind { endpoint })
        } else if arguments.subcommand@ == "connect"@ {
            match i32_of(Argument::NumMsgs, given_or(arguments.num_msgs, "100"@)) {
                Err(e) => Err(e),
                Ok(messages) => match usize_of(
                    Argument::NumBytes,
                    given_or(arguments.num_bytes, "1000000"@),
                ) {
                    Err(e) => Err(e),
                    Ok(size) => Ok(CommandView::Connect { endpoint, messages, size }),
                },
            }
        } else {
            Err(ConfigErrorView::UnexpectedSubcommand(arguments.subcommand@))
        },
    }
}

/// The text of an argument: the one given, or else the default.
fn text_or<'a>(given: &'a Option<String>, otherwise: &'a str) -> (text: &'a str)
    ensures
        text@ == given_or(*given, otherwise@),
{
    match given {
        Some(s) => s.as_str(),
        None => otherwise,
    }
}

/// Reads the text of `argument` as an `i32`.
fn read_i32(argument: Argument, text: &str) -> (r: Result<i32, ConfigError>)
    ensures
        match (r, i32_of(argument, text@)) {
            (Ok(v), Ok(n)) => v == n,
            (Err(e), Err(view)) => e@ == view,
            _ => false,
        },
{
    match parse_i32(text) {
        Some(v) => Ok(v),
        None => Err(ConfigError::InvalidNumber { argument, text: text.to_owned() }),
    }
}

/// Reads the text of `argument` as a `usize`.
fn read_usize(argument: Argument, text: &str) -> (r: Result<usize, ConfigError>)
    ensures
        match (r, usize_of(argument, text@)) {
            (Ok(v), Ok(n)) => v == n,
            (Err(e), Err(view)) => e@ == view,
            _ => false,
        },
{
    match parse_usize(text) {
        Some(v) => Ok(v),
        None => Err(ConfigError::InvalidNumber { argument, text: text.to_owned() }),
    }
}

impl Arguments {
    /// The endpoint that the arguments name.
    ///
    /// An argument that is not given has its default: `tcp`, `127.0.0.1`,
    /// `4321`. The port must be a numeral of an `i32`, under `ipc` too, where
    /// it is then left out of the endpoint. If it is none, or if the protocol
    /// is neither `tcp` nor `ipc`, there is no endpoint but an error, the
    /// port's first.
    pub fn endpoint(&self) -> (r: Result<Endpoint, ConfigError>)
        ensures
            resolves_to(r, address_of(*self)),
    {
        let protocol = text_or(&self.protocol, "tcp");
        let address = text_or(&self.address, "127.0.0.1");
        let port = text_or(&self.port, "4321");
        match read_i32(Argument::Port, port) {
            Ok(port) => resolve(protocol, address, port),
            Err(e) => Err(e),
        }
    }
}

/// The endpoint that the arguments name, as it is written: the text of
/// `Arguments::endpoint`, or its error.
pub fn get_addr(arguments: &Arguments) -> (r: Result<String, ConfigError>)
    ensures
        match (r, address_of(*arguments)) {
            (Ok(text), Ok(endpoint)) => text@ == endpoint.text(),
            (Err(e), Err(view)) => e@ == view,
            _ => false,
        },
{
    match arguments.endpoint() {
        Ok(endpoint) => Ok(endpoint.text()),
        Err(e) => Err(e),
    }
}

/// The command that the arguments name.
///
/// The endpoint is resolved first, so nothing is planned for arguments whose
/// port or protocol is wrong. `bind` takes no further argument. `connect`
/// reads the count of messages as an `i32` and their size as a `usize`, with
/// the defaults `100` and `1000000`. Any other subcommand is an error.
pub fn plan(arguments: &Arguments) -> (r: Result<Command, ConfigError>)
    ensures
        match (r, planned(*arguments)) {
            (Ok(command), Ok(view)) => command@ == view,
            (Err(e), Err(view)) => e@ == view,
            _ => false,
        },
{
    let endpoint = match arguments.endpoint() {
        Ok(endpoint) => endpoint,
        Err(e) => {
            return Err(e);
        },
    };
    if same_text(arguments.subcommand.as_str(), "bind") {
        Ok(Command::Bind { endpoint })
    } else if same_text(arguments.subcommand.as_str(), "connect") {
        let messages = match read_i32(Argument::NumMsgs, text_or(&arguments.num_msgs, "100")) {
            Ok(v) => v,
            Err(e) => {
                return Err(e);
            },
        };
        let size = match read_usize(
            Argument::NumBytes,
            text_or(&arguments.num_bytes, "1000000"),
        ) {
            Ok(v) => v,
            Err(e) => {
                return Err(e);
            },
        };
        Ok(Command::Connect { endpoint, messages, size })
    } else {
        Err(ConfigError::UnexpectedSubcommand(arguments.subcommand.clone()))
    }
}

} // verus!
