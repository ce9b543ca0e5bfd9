//! What can be wrong with the arguments of a run. Each of these is found
//! before any socket is asked for, and none is recovered from.

use vstd::prelude::*;
use vstd::string::*;

verus! {

/// An argument whose value must be a numeral.
#[derive(Clone, Copy, Debug, PartialEq, Eq, Structural)]
pub enum Argument {
    Port,
    NumMsgs,
    NumBytes,
}

/// Why the arguments of a run name no command.
#[derive(Debug, PartialEq, Eq)]
pub enum ConfigError {
    /// The protocol is neither `tcp` nor `ipc`; the field is the name given.
    UnsupportedProtocol(String),
    /// The value of `argument` is no numeral of its type; `text` is the value.
    InvalidNumber { argument: Argument, text: String },
    /// The subcommand is neither `bind` nor `connect`; the field is the name
    /// given.
    UnexpectedSubcommand(String),
}

/// A `ConfigError` with its texts as sequences of characters.
pub enum ConfigErrorView {
    UnsupportedProtocol(Seq<char>),
    InvalidNumber { argument: Argument, text: Seq<char> },
    UnexpectedSubcommand(Seq<char>),
}

impl View for ConfigError {
    type V = ConfigErrorView;

    open spec fn view(&self) -> ConfigErrorView {
        match *self {
            ConfigError::UnsupportedProtocol(name) => ConfigErrorView::UnsupportedProtocol(name@),
            ConfigError::InvalidNumber { argument, text } => ConfigErrorView::InvalidNumber {
                argument,
                text: text@,
            },
            ConfigError::UnexpectedSubcommand(name) => ConfigErrorView::UnexpectedSubcommand(
                name@,
            ),
        }
    }
}

/// The name of an argument, as it is written on the command line.
pub open spec fn argument_name(argument: Argument) -> Seq<char> {
    match argument {
        Argument::Port => "port"@,
        Argument::NumMsgs => "num_msgs"@,
        Argument::NumBytes => "num_bytes"@,
    }
}

/// The line that tells a user what is wrong.
pub open spec fn error_text(error: ConfigErrorView) -> Seq<char> {
    match error {
        ConfigErrorView::UnsupportedProtocol(name) => "Unsupported protocol "@ + name
            + ", please use tcp or ipc"@,
        ConfigErrorView::InvalidNumber { argument, text } => "Invalid value "@ + text + " for "@
            + argument_name(argument),
        ConfigErrorView::UnexpectedSubcommand(name) => "Unexpected subcommand "@ + name,
    }
}

impl Argument {
    /// The name of the argument, as it is written on the command line.
    pub fn name(self) -> (s: &'static str)
        ensures
            s@ == argument_name(self),
    {
        match self {
            Argument::Port => "port",
            Argument::NumMsgs => "num_msgs",
            Argument::NumBytes => "num_bytes",
        }
    }
}

impl ConfigError {
    /// The line that tells a user what is wrong.
    pub fn message(&self) -> (s: String)
        ensures
            s@ == error_text(self@),
    {
        match self {
            ConfigError::UnsupportedProtocol(name) => {
                let mut s = String::from_str("Unsupported protocol ");
                s.append(name.as_str());
                s.append(", please use tcp or ipc");
                s
            },
            ConfigError::InvalidNumber { argument, text } => {
                let mut s = String::from_str("Invalid value ");
                s.append(text.as_str());
                s.append(" for ");
                s.append(argument.name());
                s
            },
            ConfigError::UnexpectedSubcommand(name) => {
                let mut s = String::from_str("Unexpected subcommand ");
                s.append(name.as_str());
                s
            },
        }
    }
}

} // verus!
