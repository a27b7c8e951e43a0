use cssh::args::parse_from;
use cssh::deployment::{
    deploy_remote_binary, remote_binary_path, scp_command, ssh_command, DeployAction, DeployEvent,
    DeployStage,
};

fn s(strs: &[&str]) -> Vec<String> {
    strs.iter().map(|s| s.to_string()).collect()
}

fn expect_run(action: DeployAction) -> (String, Vec<String>) {
    match action {
        DeployAction::Run(cmd) => (cmd.program, cmd.args),
        _ => panic!("expected a command to run"),
    }
}

#[test]
fn commands_carry_the_user_options() {
    let args = parse_from(&s(&["-p", "2222", "-i", "key", "user@host"])).unwrap();
    assert_eq!(remote_binary_path(&args), ".cssh/cexec");
    let check = ssh_command(&args, "test -x .cssh/cexec");
    assert_eq!(check.program, "ssh");
    assert_eq!(
        check.args,
        s(&["-p", "2222", "-i", "key", "user@host", "test -x .cssh/cexec"])
    );
    let copy = scp_command(&args, "/usr/local/bin/cexec", ".cssh/cexec");
    assert_eq!(copy.program, "scp");
    assert_eq!(
        copy.args,
        s(&["-P", "2222", "-i", "key", "/usr/local/bin/cexec", "user@host:.cssh/cexec"])
    );
}

#[test]
fn scp_keeps_a_trailing_port_flag() {
    let args = parse_from(&s(&["user@host", "-v"])).unwrap();
    let copy = scp_command(&args, "a", "b");
    assert_eq!(copy.args, s(&["-v", "a", "user@host:b"]));
}

#[test]
fn existing_remote_binary_ends_the_deployment() {
    let args = parse_from(&s(&["--remote-name", "x", "user@host"])).unwrap();
    let (stage, action) = deploy_remote_binary(&args, DeployStage::Start, DeployEvent::Started);
    let (program, cmd_args) = expect_run(action);
    assert_eq!(program, "ssh");
    assert_eq!(cmd_args, s(&["user@host", "test -x .cssh/x"]));
    let (_, action) = deploy_remote_binary(&args, stage, DeployEvent::CommandFinished(Ok(true)));
    assert!(matches!(action, DeployAction::Finish(Ok(()))));
}

#[test]
fn full_deployment_runs_every_step_in_order() {
    let args = parse_from(&s(&["user@host"])).unwrap();
    let (stage, _) = deploy_remote_binary(&args, DeployStage::Start, DeployEvent::Started);
    let (stage, action) =
        deploy_remote_binary(&args, stage, DeployEvent::CommandFinished(Ok(false)));
    assert!(matches!(action, DeployAction::LocateLocalBinary));
    let (stage, action) =
        deploy_remote_binary(&args, stage, DeployEvent::Located(Ok("/bin/cexec".to_string())));
    assert_eq!(expect_run(action).1, s(&["user@host", "mkdir -p ~/.cssh"]));
    let (stage, action) = deploy_remote_binary(&args, stage, DeployEvent::CommandFinished(Ok(true)));
    let (program, cmd_args) = expect_run(action);
    assert_eq!(program, "scp");
    assert_eq!(cmd_args, s(&["/bin/cexec", "user@host:.cssh/cexec"]));
    let (stage, action) = deploy_remote_binary(&args, stage, DeployEvent::CommandFinished(Ok(true)));
    assert_eq!(expect_run(action).1, s(&["user@host", "chmod +x .cssh/cexec"]));
    let (stage, action) = deploy_remote_binary(&args, stage, DeployEvent::CommandFinished(Ok(true)));
    let (_, cmd_args) = expect_run(action);
    assert!(cmd_args[1].contains(">> ~/.bashrc"));
    let (_, action) = deploy_remote_binary(&args, stage, DeployEvent::CommandFinished(Ok(true)));
    assert!(matches!(action, DeployAction::Finish(Ok(()))));
}

#[test]
fn first_failure_stops_the_deployment() {
    let args = parse_from(&s(&["user@host"])).unwrap();
    let stage = DeployStage::CreatingDirectory {
        local: "/bin/cexec".to_string(),
    };
    let (_, action) = deploy_remote_binary(&args, stage, DeployEvent::CommandFinished(Ok(false)));
    match action {
        DeployAction::Finish(Err(m)) => assert_eq!(m, "リモートディレクトリ作成に失敗しました"),
        _ => panic!("expected the deployment to stop"),
    }
    let (_, action) = deploy_remote_binary(
        &args,
        DeployStage::Uploading,
        DeployEvent::CommandFinished(Err("not found".to_string())),
    );
    match action {
        DeployAction::Finish(Err(m)) => assert_eq!(m, "scp実行失敗: not found"),
        _ => panic!("expected the deployment to stop"),
    }
    let (_, action) = deploy_remote_binary(
        &args,
        DeployStage::LocatingLocal,
        DeployEvent::Located(Err("cexecバイナリが見つかりません".to_string())),
    );
    match action {
        DeployAction::Finish(Err(m)) => assert_eq!(m, "cexecバイナリが見つかりません"),
        _ => panic!("expected the deployment to stop"),
    }
}
