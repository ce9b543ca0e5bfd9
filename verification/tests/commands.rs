use zmq_bench::command::{get_addr, plan, Arguments, Command};
use zmq_bench::endpoint::Endpoint;
use zmq_bench::error::{Argument, ConfigError};

fn bare(subcommand: &str) -> Arguments {
    Arguments {
        protocol: None,
        address: None,
        port: None,
        subcommand: String::from(subcommand),
        num_msgs: None,
        num_bytes: None,
    }
}

fn some(text: &str) -> Option<String> {
    Some(String::from(text))
}

fn default_endpoint() -> Endpoint {
    Endpoint::Tcp { host: String::from("127.0.0.1"), port: 4321 }
}

#[test]
fn address_defaults() {
    assert_eq!(get_addr(&bare("bind")), Ok(String::from("tcp://127.0.0.1:4321")));
}

#[test]
fn address_of_given_arguments() {
    let mut arguments = bare("bind");
    arguments.protocol = some("tcp");
    arguments.address = some("10.1.2.3");
    arguments.port = some("5555");
    assert_eq!(get_addr(&arguments), Ok(String::from("tcp://10.1.2.3:5555")));
}

#[test]
fn address_of_ipc() {
    let mut arguments = bare("connect");
    arguments.protocol = some("ipc");
    arguments.address = some("/tmp/bench/0");
    assert_eq!(get_addr(&arguments), Ok(String::from("ipc:///tmp/bench/0")));
    arguments.port = some("9");
    assert_eq!(get_addr(&arguments), Ok(String::from("ipc:///tmp/bench/0")));
}

#[test]
fn address_with_default_host_under_ipc() {
    let mut arguments = bare("bind");
    arguments.protocol = some("ipc");
    assert_eq!(get_addr(&arguments), Ok(String::from("ipc://127.0.0.1")));
}

#[test]
fn address_writes_the_port_anew() {
    let mut arguments = bare("bind");
    arguments.port = some("+0080");
    assert_eq!(get_addr(&arguments), Ok(String::from("tcp://127.0.0.1:80")));
    arguments.port = some("-5");
    assert_eq!(get_addr(&arguments), Ok(String::from("tcp://127.0.0.1:-5")));
}

#[test]
fn arguments_name_an_endpoint() {
    assert_eq!(bare("bind").endpoint(), Ok(default_endpoint()));
    let mut arguments = bare("connect");
    arguments.protocol = some("ipc");
    arguments.address = some("/tmp/bench/0");
    arguments.port = some("17");
    assert_eq!(arguments.endpoint(), Ok(Endpoint::Ipc { path: String::from("/tmp/bench/0") }));
    arguments.protocol = some("udp");
    assert_eq!(arguments.endpoint(), Err(ConfigError::UnsupportedProtocol(String::from("udp"))));
}

#[test]
fn address_refuses_udp() {
    let mut arguments = bare("bind");
    arguments.protocol = some("udp");
    assert_eq!(get_addr(&arguments), Err(ConfigError::UnsupportedProtocol(String::from("udp"))));
}

#[test]
fn address_refuses_a_port_that_is_no_numeral() {
    for text in vec!["", "http", "43 21", "4321x", "2147483648", "0x50"] {
        let mut arguments = bare("bind");
        arguments.port = some(text);
        assert_eq!(
            get_addr(&arguments),
            Err(ConfigError::InvalidNumber { argument: Argument::Port, text: String::from(text) })
        );
    }
}

#[test]
fn address_reads_the_port_under_ipc_too() {
    let mut arguments = bare("bind");
    arguments.protocol = some("ipc");
    arguments.address = some("/tmp/bench/0");
    arguments.port = some("none");
    assert_eq!(
        get_addr(&arguments),
        Err(ConfigError::InvalidNumber { argument: Argument::Port, text: String::from("none") })
    );
}

#[test]
fn address_finds_the_port_before_the_protocol() {
    let mut arguments = bare("bind");
    arguments.protocol = some("udp");
    arguments.port = some("x");
    assert_eq!(
        get_addr(&arguments),
        Err(ConfigError::InvalidNumber { argument: Argument::Port, text: String::from("x") })
    );
}

#[test]
fn plan_bind() {
    assert_eq!(
        plan(&bare("bind")),
        Ok(Command::Bind { endpoint: default_endpoint() })
    );
}

#[test]
fn plan_bind_looks_at_no_count_or_size() {
    let mut arguments = bare("bind");
    arguments.num_msgs = some("many");
    arguments.num_bytes = some("-1");
    assert_eq!(
        plan(&arguments),
        Ok(Command::Bind { endpoint: default_endpoint() })
    );
}

#[test]
fn plan_connect_defaults() {
    assert_eq!(
        plan(&bare("connect")),
        Ok(Command::Connect {
            endpoint: default_endpoint(),
            messages: 100,
            size: 1000000,
        })
    );
}

#[test]
fn plan_connect_given() {
    let mut arguments = bare("connect");
    arguments.protocol = some("ipc");
    arguments.address = some("/tmp/bench/0");
    arguments.num_msgs = some("10");
    arguments.num_bytes = some("16");
    assert_eq!(
        plan(&arguments),
        Ok(Command::Connect {
            endpoint: Endpoint::Ipc { path: String::from("/tmp/bench/0") },
            messages: 10,
            size: 16,
        })
    );
}

#[test]
fn plan_connect_takes_any_count() {
    let mut arguments = bare("connect");
    arguments.num_msgs = some("-3");
    arguments.num_bytes = some("0");
    assert_eq!(
        plan(&arguments),
        Ok(Command::Connect {
            endpoint: default_endpoint(),
            messages: -3,
            size: 0,
        })
    );
}

#[test]
fn plan_refuses_udp_for_both_subcommands() {
    for subcommand in vec!["bind", "connect", "serve"] {
        let mut arguments = bare(subcommand);
        arguments.protocol = some("udp");
        assert_eq!(
            plan(&arguments),
            Err(ConfigError::UnsupportedProtocol(String::from("udp")))
        );
    }
}

#[test]
fn plan_refuses_other_subcommands() {
    for subcommand in vec!["", "serve", "Bind", "bind ", "connect2"] {
        assert_eq!(
            plan(&bare(subcommand)),
            Err(ConfigError::UnexpectedSubcommand(String::from(subcommand)))
        );
    }
}

#[test]
fn plan_refuses_a_count_that_is_no_numeral() {
    for text in vec!["", "ten", "1e3", "2147483648", "1.5"] {
        let mut arguments = bare("connect");
        arguments.num_msgs = some(text);
        assert_eq!(
            plan(&arguments),
            Err(ConfigError::InvalidNumber {
                argument: Argument::NumMsgs,
                text: String::from(text),
            })
        );
    }
}

#[test]
fn plan_refuses_a_size_that_is_no_numeral() {
    let beyond = format!("{}0", usize::MAX);
    for text in vec!["", "-1", "-0", "1k", "1 000", beyond.as_str()] {
        let mut arguments = bare("connect");
        arguments.num_bytes = some(text);
        assert_eq!(
            plan(&arguments),
            Err(ConfigError::InvalidNumber {
                argument: Argument::NumBytes,
                text: String::from(text),
            })
        );
    }
}

#[test]
fn plan_finds_the_count_before_the_size() {
    let mut arguments = bare("connect");
    arguments.num_msgs = some("x");
    arguments.num_bytes = some("y");
    assert_eq!(
        plan(&arguments),
        Err(ConfigError::InvalidNumber { argument: Argument::NumMsgs, text: String::from("x") })
    );
}

#[test]
fn plan_finds_the_endpoint_before_the_subcommand() {
    let mut arguments = bare("serve");
    arguments.port = some("x");
    assert_eq!(
        plan(&arguments),
        Err(ConfigError::InvalidNumber { argument: Argument::Port, text: String::from("x") })
    );
}
