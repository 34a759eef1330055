use rpc_gateway::args::CliError;
use rpc_gateway::rpc::cli::Cli as RpcCli;
use rpc_gateway::spammer::cli::Cli as SpammerCli;
use rpc_gateway::spammer::environment::Environment as SpammerEnvironment;
use rpc_gateway::worker::cli::Cli as WorkerCli;
use rpc_gateway::worker::environment::Environment as WorkerEnvironment;

fn strings(args: &[&str]) -> Vec<String> {
    args.iter().map(|a| a.to_string()).collect()
}

/// The socket addresses used below; every other text does not read as one.
const ADDRESSES: [&str; 3] = ["127.0.0.1:8545", "0.0.0.0:1", "1.2.3.4:5"];

fn socket_args(args: &[&str]) -> Vec<(String, bool)> {
    args.iter().map(|a| (a.to_string(), ADDRESSES.contains(a))).collect()
}

#[test]
fn rpc_cli_reads_both_flags() {
    let c = RpcCli::parse(&socket_args(&["--socket", "127.0.0.1:8545", "-d", "postgres://x"])).unwrap();
    assert_eq!(c.socket.as_deref(), Some("127.0.0.1:8545"));
    assert_eq!(c.database_url.as_deref(), Some("postgres://x"));
}

#[test]
fn rpc_cli_empty_and_unknown() {
    let c = RpcCli::parse(&socket_args(&[])).unwrap();
    assert!(c.socket.is_none() && c.database_url.is_none());
    let c = RpcCli::parse(&socket_args(&["--verbose", "x", "-s", "0.0.0.0:1"])).unwrap();
    assert_eq!(c.socket.as_deref(), Some("0.0.0.0:1"));
    assert!(c.database_url.is_none());
}

#[test]
fn rpc_cli_missing_values() {
    match RpcCli::parse(&socket_args(&["-s"])) {
        Err(e @ CliError::MissingValue(_)) => {
            assert_eq!(e.missing_value_message().unwrap(), "--socket requires a value")
        }
        other => panic!("unexpected {:?}", other),
    }
    match RpcCli::parse(&socket_args(&["--database-url"])) {
        Err(e @ CliError::MissingValue(_)) => {
            assert_eq!(e.missing_value_message().unwrap(), "--database-url requires a value")
        }
        other => panic!("unexpected {:?}", other),
    }
}

#[test]
fn rpc_cli_invalid_socket_stops_at_once() {
    match RpcCli::parse(&socket_args(&["--socket", "localhost", "--database-url"])) {
        Err(CliError::InvalidSocket(v)) => assert_eq!(v, "localhost"),
        other => panic!("unexpected {:?}", other),
    }
    let e = CliError::InvalidSocket("x".to_string());
    assert!(e.missing_value_message().is_none());
}

#[test]
fn rpc_cli_last_value_wins() {
    let c = RpcCli::parse(&socket_args(&["-d", "a", "-s", "1.2.3.4:5", "--database-url", "b"])).unwrap();
    assert_eq!(c.database_url.as_deref(), Some("b"));
    assert_eq!(c.socket.as_deref(), Some("1.2.3.4:5"));
}

#[test]
fn rpc_cli_unknown_argument_in_front_is_ignored() {
    let base = RpcCli::parse(&socket_args(&["-d", "a"])).unwrap();
    let with_front = RpcCli::parse(&socket_args(&["extra", "-d", "a"])).unwrap();
    assert_eq!(base.database_url, with_front.database_url);
    assert_eq!(base.socket, with_front.socket);
}

#[test]
fn worker_cli() {
    let c = WorkerCli::parse(&strings(&["-d", "postgres://w", "--other"])).unwrap();
    assert_eq!(c.database_url.as_deref(), Some("postgres://w"));
    match WorkerCli::parse(&strings(&["x", "-d"])) {
        Err(e) => assert_eq!(e.missing_value_message().unwrap(), "--database-url requires a value"),
        Ok(_) => panic!("expected an error"),
    }
    assert!(WorkerCli::parse(&strings(&[])).unwrap().database_url.is_none());
}

#[test]
fn spammer_cli() {
    let c = SpammerCli::parse(&strings(&["-pks", "k1,k2", "-r", "http://rpc"])).unwrap();
    assert_eq!(c.private_keys.as_deref(), Some("k1,k2"));
    assert_eq!(c.rpc.as_deref(), Some("http://rpc"));
    match SpammerCli::parse(&strings(&["--rpc"])) {
        Err(e) => assert_eq!(e.missing_value_message().unwrap(), "--rpc requires a value"),
        Ok(_) => panic!("expected an error"),
    }
    match SpammerCli::parse(&strings(&["--private-keys"])) {
        Err(e) => assert_eq!(e.missing_value_message().unwrap(), "--private-keys requires a value"),
        Ok(_) => panic!("expected an error"),
    }
}

#[test]
fn worker_environment_prefers_command_line() {
    let cli = WorkerCli { database_url: Some("cli".to_string()) };
    assert_eq!(WorkerEnvironment::new(&cli, Some("env".to_string())).unwrap().database_url, "cli");
    let cli = WorkerCli { database_url: None };
    assert_eq!(WorkerEnvironment::new(&cli, Some("env".to_string())).unwrap().database_url, "env");
    assert_eq!(WorkerEnvironment::new(&cli, None).unwrap_err(), "Failed to parse DATABASE_URL");
}

#[test]
fn spammer_environment_prefers_command_line() {
    let cli = SpammerCli { private_keys: Some("k".to_string()), rpc: None };
    let e = SpammerEnvironment::new(&cli, Some("ek".to_string()), Some("er".to_string())).unwrap();
    assert_eq!(e.private_keys, "k");
    assert_eq!(e.rpc, "er");
}

#[test]
fn spammer_environment_errors_in_order() {
    let cli = SpammerCli { private_keys: None, rpc: None };
    assert_eq!(SpammerEnvironment::new(&cli, None, None).unwrap_err(), "PRIVATE_KEYS must be set");
    assert_eq!(SpammerEnvironment::new(&cli, Some("k".to_string()), None).unwrap_err(), "RPC must be set");
}
