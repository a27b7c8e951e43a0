use cssh::remote_setup::{generate_setup_script, remote_binary_name, remote_install_dir};

#[test]
fn remote_install_dir_returns_correct_value() {
    assert_eq!(remote_install_dir(), "~/.local/bin");
}

#[test]
fn remote_binary_name_returns_correct_value() {
    assert_eq!(remote_binary_name(), "cexec");
}

#[test]
fn generate_setup_script_creates_valid_script() {
    let script = generate_setup_script();
    assert!(script.contains("mkdir -p"));
    assert!(script.contains("~/.local/bin"));
    assert!(script.contains("~/.cssh"));
    assert!(!script.contains(".bashrc"));
}

#[test]
fn generate_setup_script_is_exact() {
    assert_eq!(generate_setup_script(), "mkdir -p ~/.local/bin ~/.cssh");
}
