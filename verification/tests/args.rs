use cssh::args::parse_from;

fn s(strs: &[&str]) -> Vec<String> {
    strs.iter().map(|s| s.to_string()).collect()
}

#[test]
fn parses_basic_arguments_correctly() {
    let args = s(&["user@host"]);
    let result = parse_from(&args).unwrap();
    assert_eq!(result.destination, "user@host");
    assert_eq!(result.remote_name, "cexec");
    assert_eq!(result.listen_port, 0);
    assert!(result.ssh_options.is_empty());
    assert!(result.remote_command.is_empty());
}

#[test]
fn parses_arguments_with_ssh_options() {
    let args = s(&["-p", "2222", "-i", "~/.ssh/id_rsa", "user@host"]);
    let result = parse_from(&args).unwrap();
    assert_eq!(result.destination, "user@host");
    assert_eq!(result.ssh_options, s(&["-p", "2222", "-i", "~/.ssh/id_rsa"]));
}

#[test]
fn parses_cssh_specific_options() {
    let args = s(&["--remote-name", "myexec", "--listen-port", "8080", "user@host"]);
    let result = parse_from(&args).unwrap();
    assert_eq!(result.remote_name, "myexec");
    assert_eq!(result.listen_port, 8080);
}

#[test]
fn parses_remote_command_after_separator() {
    let args = s(&["user@host", "--", "cat", "file.txt"]);
    let result = parse_from(&args).unwrap();
    assert_eq!(result.remote_command, s(&["cat", "file.txt"]));
}

#[test]
fn returns_error_when_destination_is_missing() {
    let args = s(&["-p", "2222"]);
    let result = parse_from(&args);
    assert!(result.is_err());
}

#[test]
fn reports_each_parse_error() {
    assert_eq!(
        parse_from(&s(&["--remote-name"])).unwrap_err(),
        "--remote-name requires a value"
    );
    assert_eq!(
        parse_from(&s(&["--listen-port"])).unwrap_err(),
        "--listen-port requires a value"
    );
    assert_eq!(
        parse_from(&s(&["--listen-port", "70000", "h"])).unwrap_err(),
        "--listen-port must be a number"
    );
    assert_eq!(
        parse_from(&s(&["--listen-port", "-1", "h"])).unwrap_err(),
        "--listen-port must be a number"
    );
    assert_eq!(parse_from(&s(&["h", "-o"])).unwrap_err(), "-o requires a value");
    assert_eq!(parse_from(&s(&[])).unwrap_err(), "destination is required");
    assert_eq!(
        parse_from(&s(&["--", "user@host"])).unwrap_err(),
        "destination is required"
    );
}

#[test]
fn listen_port_accepts_what_u16_parsing_accepts() {
    assert_eq!(parse_from(&s(&["--listen-port", "+65535", "h"])).unwrap().listen_port, 65535);
    assert_eq!(parse_from(&s(&["--listen-port", "007", "h"])).unwrap().listen_port, 7);
    assert!(parse_from(&s(&["--listen-port", "65536", "h"])).is_err());
    assert!(parse_from(&s(&["--listen-port", "+", "h"])).is_err());
    assert!(parse_from(&s(&["--listen-port", "", "h"])).is_err());
    assert!(parse_from(&s(&["--listen-port", " 80", "h"])).is_err());
}

#[test]
fn last_destination_wins_and_flags_pass_through() {
    let result = parse_from(&s(&["first", "-v", "second", "-J", "jump", "--", "--x"])).unwrap();
    assert_eq!(result.destination, "second");
    assert_eq!(result.ssh_options, s(&["-v", "-J", "jump"]));
    assert_eq!(result.remote_command, s(&["--x"]));
}

#[test]
fn option_value_may_look_like_an_option() {
    let result = parse_from(&s(&["--remote-name", "--", "host"])).unwrap();
    assert_eq!(result.remote_name, "--");
    assert_eq!(result.destination, "host");
    assert!(result.remote_command.is_empty());
}

#[test]
fn separator_consumed_as_a_value_does_not_start_the_remote_command() {
    let result = parse_from(&s(&["-p", "--", "host", "--", "-p", "x", "--"])).unwrap();
    assert_eq!(result.ssh_options, s(&["-p", "--"]));
    assert_eq!(result.destination, "host");
    assert_eq!(result.remote_command, s(&["-p", "x", "--"]));
}

#[test]
fn missing_value_after_last_option_fails_even_with_destination() {
    assert!(parse_from(&s(&["host", "-i"])).is_err());
    assert!(parse_from(&s(&["host", "--", "-i"])).is_ok());
}
