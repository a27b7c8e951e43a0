use cssh::platform::{
    binary_file_name, executable_extension, executable_mode, is_executable_extension,
    is_executable_mode, Platform,
};

#[test]
fn executable_extension_returns_correct_value() {
    assert_eq!(executable_extension(Platform::Windows), ".exe");
    assert_eq!(executable_extension(Platform::Unix), "");
}

#[test]
fn binary_file_name_appends_the_extension() {
    assert_eq!(binary_file_name("cssh-agent", Platform::Windows), "cssh-agent.exe");
    assert_eq!(binary_file_name("cssh-agent", Platform::Unix), "cssh-agent");
}

#[test]
fn program_extensions_are_recognised_in_any_case() {
    assert!(is_executable_extension("exe"));
    assert!(is_executable_extension("BAT"));
    assert!(is_executable_extension("Bat"));
    assert!(!is_executable_extension("cmd"));
    assert!(!is_executable_extension("CMD"));
    assert!(!is_executable_extension("sh"));
    assert!(!is_executable_extension(""));
    assert!(!is_executable_extension("exec"));
}

#[test]
fn execute_bits_are_detected_and_set() {
    assert!(!is_executable_mode(0o644));
    assert!(is_executable_mode(0o100));
    assert!(is_executable_mode(0o755));
    assert_eq!(executable_mode(0o644), 0o755);
    assert_eq!(executable_mode(0o600), 0o711);
    assert!(is_executable_mode(executable_mode(0o600)));
    assert_eq!(executable_mode(executable_mode(0o600)), executable_mode(0o600));
}
