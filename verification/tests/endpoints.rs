use zmq_bench::endpoint::{resolve, same_text, Endpoint, Protocol};
use zmq_bench::error::{Argument, ConfigError};

fn written(protocol: &str, address: &str, port: i32) -> Result<String, ConfigError> {
    resolve(protocol, address, port).map(|endpoint| endpoint.text())
}

#[test]
fn tcp_endpoint_has_host_and_port() {
    assert_eq!(
        resolve("tcp", "127.0.0.1", 4321),
        Ok(Endpoint::Tcp { host: String::from("127.0.0.1"), port: 4321 })
    );
    assert_eq!(written("tcp", "127.0.0.1", 4321), Ok(String::from("tcp://127.0.0.1:4321")));
}

#[test]
fn ipc_endpoint_leaves_the_port_out() {
    assert_eq!(
        resolve("ipc", "/tmp/bench/0", 4321),
        Ok(Endpoint::Ipc { path: String::from("/tmp/bench/0") })
    );
    assert_eq!(written("ipc", "/tmp/bench/0", 4321), Ok(String::from("ipc:///tmp/bench/0")));
    assert_eq!(written("ipc", "/tmp/bench/0", 0), Ok(String::from("ipc:///tmp/bench/0")));
    assert_eq!(written("ipc", "/tmp/bench/0", -7), Ok(String::from("ipc:///tmp/bench/0")));
}

#[test]
fn udp_is_not_supported() {
    assert_eq!(
        resolve("udp", "127.0.0.1", 4321),
        Err(ConfigError::UnsupportedProtocol(String::from("udp")))
    );
}

#[test]
fn protocol_names_are_exact() {
    let names =
        vec!["", "TCP", "Tcp", "tcp ", " tcp", "tcp://", "tc", "tcpp", "IPC", "inproc", "pgm"];
    for name in names {
        assert_eq!(
            resolve(name, "127.0.0.1", 4321),
            Err(ConfigError::UnsupportedProtocol(String::from(name))),
            "on {:?}",
            name
        );
    }
}

#[test]
fn tcp_endpoint_takes_any_port() {
    assert_eq!(written("tcp", "localhost", 0), Ok(String::from("tcp://localhost:0")));
    assert_eq!(written("tcp", "localhost", 65535), Ok(String::from("tcp://localhost:65535")));
    assert_eq!(written("tcp", "*", -1), Ok(String::from("tcp://*:-1")));
    assert_eq!(
        written("tcp", "10.0.0.1", i32::MAX),
        Ok(String::from("tcp://10.0.0.1:2147483647"))
    );
    assert_eq!(
        written("tcp", "10.0.0.1", i32::MIN),
        Ok(String::from("tcp://10.0.0.1:-2147483648"))
    );
}

#[test]
fn endpoint_takes_the_address_as_it_is() {
    assert_eq!(written("tcp", "", 1), Ok(String::from("tcp://:1")));
    assert_eq!(written("ipc", "", 1), Ok(String::from("ipc://")));
    assert_eq!(written("tcp", "h\u{f6}st", 1), Ok(String::from("tcp://h\u{f6}st:1")));
    assert_eq!(written("ipc", "a b:c", 1), Ok(String::from("ipc://a b:c")));
}

#[test]
fn endpoint_matches_the_format_of_std() {
    let ports: Vec<i32> = vec![0, 1, 80, 4321, 65535, -5];
    for port in ports {
        for address in vec!["127.0.0.1", "*", "example.org"] {
            assert_eq!(
                written("tcp", address, port),
                Ok(format!("{}://{}:{}", "tcp", address, port))
            );
            assert_eq!(written("ipc", address, port), Ok(format!("{}://{}", "ipc", address)));
        }
    }
}

#[test]
fn protocol_parses_and_names() {
    assert_eq!(Protocol::parse("tcp"), Some(Protocol::Tcp));
    assert_eq!(Protocol::parse("ipc"), Some(Protocol::Ipc));
    assert_eq!(Protocol::parse("udp"), None);
    assert_eq!(Protocol::Tcp.name(), "tcp");
    assert_eq!(Protocol::Ipc.name(), "ipc");
}

#[test]
fn endpoint_of_a_protocol() {
    let tcp = Endpoint::new(Protocol::Tcp, "h", 9);
    assert_eq!(tcp, Endpoint::Tcp { host: String::from("h"), port: 9 });
    assert_eq!(tcp.protocol(), Protocol::Tcp);
    assert_eq!(tcp.text(), "tcp://h:9");
    let ipc = Endpoint::new(Protocol::Ipc, "/p", 9);
    assert_eq!(ipc, Endpoint::Ipc { path: String::from("/p") });
    assert_eq!(ipc.protocol(), Protocol::Ipc);
    assert_eq!(ipc.text(), "ipc:///p");
}

#[test]
fn same_text_compares_characters() {
    assert!(same_text("", ""));
    assert!(same_text("tcp", "tcp"));
    assert!(!same_text("tcp", "tcq"));
    assert!(!same_text("tcp", "tc"));
    assert!(!same_text("tc", "tcp"));
}

#[test]
fn error_messages() {
    assert_eq!(
        ConfigError::UnsupportedProtocol(String::from("udp")).message(),
        "Unsupported protocol udp, please use tcp or ipc"
    );
    assert_eq!(
        ConfigError::InvalidNumber { argument: Argument::Port, text: String::from("http") }
            .message(),
        "Invalid value http for port"
    );
    assert_eq!(
        ConfigError::InvalidNumber { argument: Argument::NumMsgs, text: String::from("") }
            .message(),
        "Invalid value  for num_msgs"
    );
    assert_eq!(
        ConfigError::InvalidNumber { argument: Argument::NumBytes, text: String::from("-1") }
            .message(),
        "Invalid value -1 for num_bytes"
    );
    assert_eq!(
        ConfigError::UnexpectedSubcommand(String::from("serve")).message(),
        "Unexpected subcommand serve"
    );
}

#[test]
fn argument_names() {
    assert_eq!(Argument::Port.name(), "port");
    assert_eq!(Argument::NumMsgs.name(), "num_msgs");
    assert_eq!(Argument::NumBytes.name(), "num_bytes");
}
