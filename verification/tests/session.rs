use cssh::args::parse_from;
use cssh::session::{parse_agent_port, session_command, session_exit_code};

fn s(strs: &[&str]) -> Vec<String> {
    strs.iter().map(|s| s.to_string()).collect()
}

#[test]
fn session_command_sets_up_the_tunnel() {
    let args = parse_from(&s(&["-p", "2222", "user@host", "--", "ls", "-la"])).unwrap();
    let cmd = session_command(&args, 40123);
    assert_eq!(cmd.program, "ssh");
    assert_eq!(
        cmd.args,
        s(&[
            "-R",
            "40123:127.0.0.1:40123",
            "-o",
            "SendEnv=CSSH_PORT",
            "-o",
            "SetEnv=CSSH_PORT=40123",
            "-p",
            "2222",
            "user@host",
            "ls",
            "-la",
        ])
    );
}

#[test]
fn agent_port_line_is_read() {
    assert_eq!(parse_agent_port("54321\n"), Ok(54321));
    assert_eq!(parse_agent_port("  8080 \r\n"), Ok(8080));
    assert_eq!(
        parse_agent_port("oops\n"),
        Err("不正なポート番号: 'oops'".to_string())
    );
    assert_eq!(parse_agent_port(""), Err("不正なポート番号: ''".to_string()));
}

#[test]
fn exit_code_defaults_to_one() {
    assert_eq!(session_exit_code(Some(0)), 0);
    assert_eq!(session_exit_code(Some(255)), 255);
    assert_eq!(session_exit_code(None), 1);
}
