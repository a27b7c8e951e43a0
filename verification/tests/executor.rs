use cssh::error::CsshError;
use cssh::executor::{
    build_command, escape_cmd_arg, execute, finish_execution, is_cmd_or_bat, ExecutionPlan,
    ProcessOutput,
};
use cssh::platform::Platform;
use cssh::protocol::{ExecuteRequest, ExecuteResponse};

fn strings(items: &[&str]) -> Vec<String> {
    items.iter().map(|s| s.to_string()).collect()
}

/// Plans `request` and completes it with `outcome`, the report that starting
/// the planned command gives (tests cannot start processes themselves).
fn run_request(
    request: &ExecuteRequest,
    expected_program: &str,
    expected_args: &[&str],
    outcome: Result<ProcessOutput, String>,
) -> Result<ExecuteResponse, CsshError> {
    match execute(request, Platform::Unix) {
        ExecutionPlan::Respond(response) => Ok(response),
        ExecutionPlan::Run(cmd) => {
            assert_eq!(cmd.program, expected_program);
            assert_eq!(cmd.args, strings(expected_args));
            finish_execution(outcome)
        }
    }
}

#[test]
fn echo_command_executes_correctly() {
    let request = ExecuteRequest {
        args: strings(&["echo", "hello"]),
        token: String::new(),
    };
    let output = ProcessOutput {
        status_code: Some(0),
        stdout: b"hello\n".to_vec(),
        stderr: Vec::new(),
    };
    let response = run_request(&request, "echo", &["hello"], Ok(output)).unwrap();
    assert_eq!(response.exit_code, 0);
    assert_eq!(String::from_utf8_lossy(&response.stdout).trim(), "hello");
}

#[test]
fn returns_error_for_nonexistent_command() {
    let request = ExecuteRequest {
        args: strings(&["nonexistent_command_xyz"]),
        token: String::new(),
    };
    let not_found = Err("No such file or directory (os error 2)".to_string());
    let result = run_request(&request, "nonexistent_command_xyz", &[], not_found);
    assert!(result.is_err());
}

#[test]
fn returns_error_response_for_empty_args() {
    let request = ExecuteRequest {
        args: vec![],
        token: String::new(),
    };
    let unused = Err("not started".to_string());
    let response = run_request(&request, "", &[], unused).unwrap();
    assert_eq!(response.exit_code, 1);
}

#[test]
fn nonzero_exit_code_is_handled_correctly() {
    let request = ExecuteRequest {
        args: strings(&["false"]),
        token: String::new(),
    };
    let output = ProcessOutput {
        status_code: Some(1),
        stdout: Vec::new(),
        stderr: Vec::new(),
    };
    let response = run_request(&request, "false", &[], Ok(output)).unwrap();
    assert_ne!(response.exit_code, 0);
}

#[test]
fn empty_request_is_answered_without_running_anything() {
    let request = ExecuteRequest {
        args: vec![],
        token: String::new(),
    };
    match execute(&request, Platform::Windows) {
        ExecutionPlan::Respond(response) => {
            assert_eq!(response.exit_code, 1);
            assert!(response.stdout.is_empty());
            assert_eq!(response.stderr, b"no command specified".to_vec());
        }
        ExecutionPlan::Run(_) => panic!("an empty request must not run a command"),
    }
}

#[test]
fn finish_execution_uses_minus_one_without_exit_code() {
    let response = finish_execution(Ok(ProcessOutput {
        status_code: None,
        stdout: b"out".to_vec(),
        stderr: b"err".to_vec(),
    }))
    .unwrap();
    assert_eq!(response.exit_code, -1);
    assert_eq!(response.stdout, b"out".to_vec());
    assert_eq!(response.stderr, b"err".to_vec());
}

#[test]
fn finish_execution_reports_start_failure_as_execution_error() {
    match finish_execution(Err("no such file".to_string())) {
        Err(CsshError::Execution(reason)) => assert_eq!(reason, "no such file"),
        other => panic!("unexpected result: {:?}", other),
    }
}

#[test]
fn build_command_creates_platform_appropriate_command() {
    let args = strings(&["echo", "test"]);
    let unix = build_command(&args, Platform::Unix);
    assert_eq!(unix.program, "echo");
    assert_eq!(unix.args, strings(&["test"]));
    let windows = build_command(&args, Platform::Windows);
    assert_eq!(windows.program, "echo");
    assert_eq!(windows.args, strings(&["test"]));
}

#[test]
fn build_command_uses_cmd_for_bat_files() {
    let args = strings(&["script.bat", "arg1"]);
    assert_eq!(build_command(&args, Platform::Windows).program, "cmd");
    assert_eq!(build_command(&args, Platform::Unix).program, "script.bat");
}

#[test]
fn build_command_uses_cmd_for_cmd_files() {
    let args = strings(&["code.CMD", "file.txt"]);
    assert_eq!(build_command(&args, Platform::Windows).program, "cmd");
    assert_eq!(build_command(&args, Platform::Unix).program, "code.CMD");
}

#[test]
fn build_command_does_not_use_cmd_for_regular_executables() {
    let args = strings(&["git", "status"]);
    assert_eq!(build_command(&args, Platform::Windows).program, "git");
    assert_eq!(build_command(&args, Platform::Unix).program, "git");
}

#[test]
fn build_command_escapes_batch_arguments_on_windows() {
    let args = strings(&["run.bat", "a&b", "plain"]);
    let cmd = build_command(&args, Platform::Windows);
    assert_eq!(cmd.program, "cmd");
    assert_eq!(cmd.args, strings(&["/C", "run.bat", "a^&b", "plain"]));
}

#[test]
fn escape_cmd_arg_escapes_metacharacters() {
    assert_eq!(escape_cmd_arg("hello"), "hello");
    assert_eq!(escape_cmd_arg("a&b"), "a^&b");
    assert_eq!(escape_cmd_arg("a|b"), "a^|b");
    assert_eq!(escape_cmd_arg("a(b)"), "a^(b^)");
    assert_eq!(escape_cmd_arg("a<b>c"), "a^<b^>c");
    assert_eq!(escape_cmd_arg("a^b"), "a^^b");
    assert_eq!(escape_cmd_arg("a\"b"), "a^\"b");
    assert_eq!(escape_cmd_arg("a%b"), "a^%b");
    assert_eq!(escape_cmd_arg("a!b"), "a^!b");
}

#[test]
fn escape_cmd_arg_handles_multiple_metacharacters() {
    let input = "echo hello & del /q * | rm -rf";
    let result = escape_cmd_arg(input);
    assert_eq!(result, "echo hello ^& del /q * ^| rm -rf");
}

#[test]
fn escape_cmd_arg_keeps_non_ascii_text() {
    assert_eq!(escape_cmd_arg("日本&語"), "日本^&語");
    assert_eq!(escape_cmd_arg(""), "");
    assert_eq!(escape_cmd_arg("&&"), "^&^&");
}

#[test]
fn is_cmd_or_bat_detects_correctly() {
    assert!(is_cmd_or_bat("script.bat"));
    assert!(is_cmd_or_bat("script.BAT"));
    assert!(is_cmd_or_bat("code.cmd"));
    assert!(is_cmd_or_bat("code.CMD"));
    assert!(!is_cmd_or_bat("git"));
    assert!(!is_cmd_or_bat("python.exe"));
    assert!(!is_cmd_or_bat("script.sh"));
}

#[test]
fn is_cmd_or_bat_handles_short_and_mixed_case_names() {
    assert!(is_cmd_or_bat(".bat"));
    assert!(is_cmd_or_bat("x.CmD"));
    assert!(!is_cmd_or_bat("bat"));
    assert!(!is_cmd_or_bat(""));
}
