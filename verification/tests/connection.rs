use cssh::connection::{parse_connection_info, ConnectionInfo};

#[test]
fn parse_connection_info_parses_socket_format() {
    let content = "socket|/tmp/cssh-agent-12345.sock|abctoken\n";
    let info = parse_connection_info(content, "test").unwrap();
    assert_eq!(
        info,
        ConnectionInfo::UnixSocket {
            path: "/tmp/cssh-agent-12345.sock".to_string(),
            token: "abctoken".to_string(),
        }
    );
}

#[test]
fn parse_connection_info_parses_tcp_format() {
    let content = "tcp|54321|mytoken\n";
    let info = parse_connection_info(content, "test").unwrap();
    assert_eq!(
        info,
        ConnectionInfo::Tcp {
            port: 54321,
            token: "mytoken".to_string(),
        }
    );
}

#[test]
fn parse_connection_info_returns_error_for_empty_content() {
    let result = parse_connection_info("", "test");
    assert!(result.is_err());
    assert!(result.unwrap_err().contains("empty port file"));
}

#[test]
fn parse_connection_info_returns_error_for_invalid_port_in_tcp_format() {
    let result = parse_connection_info("tcp|bad|token\n", "test");
    assert!(result.is_err());
    assert!(result.unwrap_err().contains("invalid port"));
}

#[test]
fn parse_connection_info_returns_error_for_unknown_type() {
    let result = parse_connection_info("unknown|value|token\n", "test");
    assert!(result.is_err());
    assert!(result.unwrap_err().contains("unknown connection type"));
}

#[test]
fn parse_connection_info_returns_error_for_legacy_format() {
    let result = parse_connection_info("54321\nabc123token\n", "test");
    assert!(result.is_err());
    assert!(result.unwrap_err().contains("invalid connection info"));
}

#[test]
fn error_messages_are_exact() {
    assert_eq!(
        parse_connection_info("", "/home/u/.cssh/agent_port").unwrap_err(),
        "empty port file: /home/u/.cssh/agent_port"
    );
    assert_eq!(
        parse_connection_info("  54321  \nx", "p").unwrap_err(),
        "invalid connection info in p: '54321'"
    );
    assert_eq!(
        parse_connection_info("tcp|99999|t", "p").unwrap_err(),
        "invalid port in p: '99999'"
    );
    assert_eq!(
        parse_connection_info("udp|1|t", "p").unwrap_err(),
        "unknown connection type in p: 'udp'"
    );
}

#[test]
fn only_the_first_line_counts_and_token_keeps_bars() {
    let info = parse_connection_info(" tcp|80|a|b \r\nsocket|x|y\n", "p").unwrap();
    assert_eq!(
        info,
        ConnectionInfo::Tcp {
            port: 80,
            token: "a|b".to_string(),
        }
    );
    let socket = parse_connection_info("socket||\n", "p").unwrap();
    assert_eq!(
        socket,
        ConnectionInfo::UnixSocket {
            path: String::new(),
            token: String::new(),
        }
    );
}
