use vstd::prelude::*;

use crate::args::{ArgsModel, CsshArgs};
use crate::command::{push_all, push_text, CommandLine};
use crate::text::text_equal;

verus! {

/// The shell command that adds `~/.cssh` to `PATH` in `~/.bashrc`, once.
pub open spec fn path_setup_script() -> Seq<char> {
    "grep -q 'export PATH=\"$HOME/.cssh:$PATH\"' ~/.bashrc 2>/dev/null || echo 'export PATH=\"$HOME/.cssh:$PATH\"' >> ~/.bashrc"@
}

/// Where the remote executable goes, relative to the remote home directory.
pub open spec fn remote_path_of(args: ArgsModel) -> Seq<char> {
    ".cssh/"@ + args.remote_name
}

/// The `ssh` command that runs the shell command `remote` on the destination.
pub open spec fn ssh_command_of(args: ArgsModel, remote: Seq<char>) -> (Seq<char>, Seq<Seq<char>>) {
    ("ssh"@, args.ssh_options + seq![args.destination, remote])
}

/// The `ssh` options as `scp` takes them: `-p PORT` becomes `-P PORT`; the
/// others stay as they are.
pub open spec fn scp_options(opts: Seq<Seq<char>>) -> Seq<Seq<char>>
    decreases opts.len(),
{
    if opts.len() == 0 {
        Seq::empty()
    } else if opts[0] == "-p"@ {
        if opts.len() >= 2 {
            seq!["-P"@, opts[1]] + scp_options(opts.skip(2))
        } else {
            seq!["-P"@]
        }
    } else {
        seq![opts[0]] + scp_options(opts.skip(1))
    }
}

/// The `scp` command that copies the local file `local` to `remote` on the
/// destination.
pub open spec fn scp_command_of(args: ArgsModel, local: Seq<char>, remote: Seq<char>) -> (
    Seq<char>,
    Seq<Seq<char>>,
) {
    ("scp"@, scp_options(args.ssh_options) + seq![local, args.destination + ":"@ + remote])
}

/// Whether no element of `opts` is `t`.
pub open spec fn lacks_option(opts: Seq<Seq<char>>, t: Seq<char>) -> bool {
    forall|i: int| 0 <= i < opts.len() ==> opts[i] != t
}

/// `ssh` options other than `-p` reach `scp` unchanged.
pub proof fn law_scp_keeps_other_options(x: Seq<Seq<char>>)
    requires
        lacks_option(x, "-p"@),
    ensures
        scp_options(x) == x,
    decreases x.len(),
{
    if x.len() > 0 {
        assert(x[0] != "-p"@);
        assert(lacks_option(x.skip(1), "-p"@)) by {
            assert forall|i: int| 0 <= i < x.skip(1).len() implies x.skip(1)[i] != "-p"@ by {
                assert(x.skip(1)[i] == x[i + 1]);
            }
        }
        law_scp_keeps_other_options(x.skip(1));
        assert(seq![x[0]] + x.skip(1) =~= x);
    }
}

/// The `ssh` port option `-p v` becomes the `scp` port option `-P v`, wherever
/// it follows options other than `-p`; what comes before it is kept and what
/// comes after it is converted the same way.
pub proof fn law_scp_port_option(x: Seq<Seq<char>>, v: Seq<char>, y: Seq<Seq<char>>)
    requires
        lacks_option(x, "-p"@),
    ensures
        scp_options(x + seq!["-p"@, v] + y) == x + seq!["-P"@, v] + scp_options(y),
    decreases x.len(),
{
    let whole = x + seq!["-p"@, v] + y;
    if x.len() == 0 {
        assert(whole =~= seq!["-p"@, v] + y);
        assert(whole.skip(2) =~= y);
        assert(x + seq!["-P"@, v] + scp_options(y) =~= seq!["-P"@, v] + scp_options(y));
    } else {
        assert(x[0] != "-p"@);
        let x1 = x.skip(1);
        assert(lacks_option(x1, "-p"@)) by {
            assert forall|i: int| 0 <= i < x1.len() implies x1[i] != "-p"@ by {
                assert(x1[i] == x[i + 1]);
            }
        }
        law_scp_port_option(x1, v, y);
        assert(whole[0] == x[0]);
        assert(whole.skip(1) =~= x1 + seq!["-p"@, v] + y);
        assert(seq![x[0]] + (x1 + seq!["-P"@, v] + scp_options(y)) =~= x + seq!["-P"@, v]
            + scp_options(y));
    }
}

/// Where the remote executable goes: `.cssh/<remote name>`.
pub fn remote_binary_path(args: &CsshArgs) -> (r: String)
    ensures
        r@ == remote_path_of(args@),
{
    String::from_str(".cssh/").concat(args.remote_name.as_str())
}

/// The `ssh` command that runs the shell command `remote` on the destination.
pub fn ssh_command(args: &CsshArgs, remote: &str) -> (r: CommandLine)
    ensures
        r@ == ssh_command_of(args@, remote@),
{
    let mut out: Vec<String> = Vec::new();
    proof {
        assert(out.deep_view() =~= Seq::<Seq<char>>::empty());
    }
    push_all(&mut out, args.ssh_options.as_slice());
    push_text(&mut out, args.destination.as_str());
    push_text(&mut out, remote);
    assert(out.deep_view() =~= args@.ssh_options + seq![args@.destination, remote@]);
    CommandLine { program: String::from_str("ssh"), args: out }
}

/// The `ssh` options converted for `scp`.
pub fn scp_option_list(opts: &[String]) -> (r: Vec<String>)
    ensures
        r.deep_view() == scp_options(opts.deep_view()),
{
    let n = opts.len();
    let ghost o = opts.deep_view();
    let mut out: Vec<String> = Vec::new();
    let mut i: usize = 0;
    proof {
        reveal_strlit("-P");
        assert(o.skip(0) =~= o);
        assert(out.deep_view() =~= Seq::<Seq<char>>::empty());
    }
    while i < n
        invariant
            i <= n,
            n == o.len(),
            o == opts.deep_view(),
            scp_options(o) == out.deep_view() + scp_options(o.skip(i as int)),
        decreases n - i,
    {
        let ghost before = out.deep_view();
        let ghost rest = o.skip(i as int);
        assert(rest[0] == opts@[i as int]@);
        if text_equal(opts[i].as_str(), "-p") {
            push_text(&mut out, "-P");
            if i + 1 < n {
                assert(rest[1] == opts@[i + 1]@);
                push_text(&mut out, opts[i + 1].as_str());
                assert(rest.skip(2) =~= o.skip(i + 2));
                assert(scp_options(rest) == seq!["-P"@, rest[1]] + scp_options(rest.skip(2)));
                assert(out.deep_view() =~= before + seq!["-P"@, rest[1]]);
                i = i + 2;
            } else {
                assert(scp_options(rest) == seq!["-P"@]);
                assert(o.skip(i + 1) =~= Seq::<Seq<char>>::empty());
                assert(scp_options(o.skip(i + 1)) == Seq::<Seq<char>>::empty());
                assert(out.deep_view() =~= before + seq!["-P"@]);
                i = i + 1;
            }
        } else {
            push_text(&mut out, opts[i].as_str());
            assert(rest.skip(1) =~= o.skip(i + 1));
            assert(scp_options(rest) == seq![rest[0]] + scp_options(rest.skip(1)));
            assert(out.deep_view() =~= before + seq![rest[0]]);
            i = i + 1;
        }
    }
    assert(o.skip(i as int) =~= Seq::<Seq<char>>::empty());
    assert(out.deep_view() =~= out.deep_view() + Seq::<Seq<char>>::empty());
    out
}

/// The `scp` command that copies the local file `local` to `remote` on the
/// destination, with the user's `ssh` options converted for `scp`.
pub fn scp_command(args: &CsshArgs, local: &str, remote: &str) -> (r: CommandLine)
    ensures
        r@ == scp_command_of(args@, local@, remote@),
{
    let mut out = scp_option_list(args.ssh_options.as_slice());
    push_text(&mut out, local);
    let target = args.destination.clone().concat(":").concat(remote);
    push_text(&mut out, target.as_str());
    CommandLine { program: String::from_str("scp"), args: out }
}

/// How far the deployment of the remote executable has got.
pub enum DeployStage {
    /// Nothing done yet.
    Start,
    /// Asking the remote host whether the executable is there already.
    CheckingRemote,
    /// Looking for the executable to copy on this host.
    LocatingLocal,
    /// Creating `~/.cssh` on the remote host; `local` is the file to copy.
    CreatingDirectory { local: String },
    /// Copying the executable over.
    Uploading,
    /// Making the copy executable.
    MarkingExecutable,
    /// Adding `~/.cssh` to the remote `PATH`.
    ConfiguringPath,
    /// Finished.
    Done,
}

/// What the last action of a deployment gave.
pub enum DeployEvent {
    /// The deployment begins.
    Started,
    /// A command ran: whether it succeeded, or why it could not be started.
    CommandFinished(Result<bool, String>),
    /// The local executable was looked for: its path, or why it was not found.
    Located(Result<String, String>),
}

/// What a deployment asks for next.
pub enum DeployAction {
    /// Run this command and report how it went.
    Run(CommandLine),
    /// Look for the local executable and report what was found.
    LocateLocalBinary,
    /// Stop, with this result.
    Finish(Result<(), String>),
}

pub enum StageModel {
    Start,
    CheckingRemote,
    LocatingLocal,
    CreatingDirectory(Seq<char>),
    Uploading,
    MarkingExecutable,
    ConfiguringPath,
    Done,
}

pub enum EventModel {
    Started,
    CommandFinished(Result<bool, Seq<char>>),
    Located(Result<Seq<char>, Seq<char>>),
}

pub enum ActionModel {
    Run((Seq<char>, Seq<Seq<char>>)),
    LocateLocalBinary,
    Finish(Result<(), Seq<char>>),
}

impl View for DeployStage {
    type V = StageModel;

    open spec fn view(&self) -> StageModel {
        match self {
            DeployStage::Start => StageModel::Start,
            DeployStage::CheckingRemote => StageModel::CheckingRemote,
            DeployStage::LocatingLocal => StageModel::LocatingLocal,
            DeployStage::CreatingDirectory { local } => StageModel::CreatingDirectory(local@),
            DeployStage::Uploading => StageModel::Uploading,
            DeployStage::MarkingExecutable => StageModel::MarkingExecutable,
            DeployStage::ConfiguringPath => StageModel::ConfiguringPath,
            DeployStage::Done => StageModel::Done,
        }
    }
}

impl View for DeployEvent {
    type V = EventModel;

    open spec fn view(&self) -> EventModel {
        match self {
            DeployEvent::Started => EventModel::Started,
            DeployEvent::CommandFinished(Ok(b)) => EventModel::CommandFinished(Ok(*b)),
            DeployEvent::CommandFinished(Err(e)) => EventModel::CommandFinished(Err(e@)),
            DeployEvent::Located(Ok(p)) => EventModel::Located(Ok(p@)),
            DeployEvent::Located(Err(e)) => EventModel::Located(Err(e@)),
        }
    }
}

impl View for DeployAction {
    type V = ActionModel;

    open spec fn view(&self) -> ActionModel {
        match self {
            DeployAction::Run(c) => ActionModel::Run(c@),
            DeployAction::LocateLocalBinary => ActionModel::LocateLocalBinary,
            DeployAction::Finish(Ok(())) => ActionModel::Finish(Ok(())),
            DeployAction::Finish(Err(e)) => ActionModel::Finish(Err(e@)),
        }
    }
}

/// Whether `event` is the kind of report that `stage` waits for.
pub open spec fn event_fits(stage: StageModel, event: EventModel) -> bool {
    match stage {
        StageModel::Start => event is Started,
        StageModel::LocatingLocal => event is Located,
        StageModel::Done => false,
        _ => event is CommandFinished,
    }
}

/// After a remote command of the deployment: go on to `next` where it
/// succeeded; otherwise stop with `spawn_failure` and the reason where it
/// could not be started, or with `status_failure` where it failed.
pub open spec fn after_command(
    outcome: Result<bool, Seq<char>>,
    spawn_failure: Seq<char>,
    status_failure: Seq<char>,
    next: (StageModel, ActionModel),
) -> (StageModel, ActionModel) {
    match outcome {
        Err(e) => (StageModel::Done, ActionModel::Finish(Err(spawn_failure + e))),
        Ok(false) => (StageModel::Done, ActionModel::Finish(Err(status_failure))),
        Ok(true) => next,
    }
}

/// The deployment of the remote executable, one step at a time: check whether
/// it is on the remote host already (then stop); else find the local one,
/// create `~/.cssh` remotely, copy it there with `scp`, make it executable,
/// and add `~/.cssh` to the remote `PATH`. The first failure stops it.
pub open spec fn deploy_step(args: ArgsModel, stage: StageModel, event: EventModel) -> (
    StageModel,
    ActionModel,
) {
    let path = remote_path_of(args);
    match stage {
        StageModel::Start => (
            StageModel::CheckingRemote,
            ActionModel::Run(ssh_command_of(args, "test -x "@ + path)),
        ),
        StageModel::CheckingRemote => match event {
            EventModel::CommandFinished(Err(e)) => (
                StageModel::Done,
                ActionModel::Finish(Err("ssh実行失敗: "@ + e)),
            ),
            EventModel::CommandFinished(Ok(true)) => (StageModel::Done, ActionModel::Finish(Ok(()))),
            _ => (StageModel::LocatingLocal, ActionModel::LocateLocalBinary),
        },
        StageModel::LocatingLocal => match event {
            EventModel::Located(Ok(local)) => (
                StageModel::CreatingDirectory(local),
                ActionModel::Run(ssh_command_of(args, "mkdir -p ~/.cssh"@)),
            ),
            EventModel::Located(Err(e)) => (StageModel::Done, ActionModel::Finish(Err(e))),
            _ => (StageModel::Done, ActionModel::Finish(Ok(()))),
        },
        StageModel::CreatingDirectory(local) => match event {
            EventModel::CommandFinished(outcome) => after_command(
                outcome,
                "リモートディレクトリ作成失敗: "@,
                "リモートディレクトリ作成に失敗しました"@,
                (StageModel::Uploading, ActionModel::Run(scp_command_of(args, local, path))),
            ),
            _ => (StageModel::Done, ActionModel::Finish(Ok(()))),
        },
        StageModel::Uploading => match event {
            EventModel::CommandFinished(outcome) => after_command(
                outcome,
                "scp実行失敗: "@,
                "SCPによるファイル転送に失敗しました"@,
                (
                    StageModel::MarkingExecutable,
                    ActionModel::Run(ssh_command_of(args, "chmod +x "@ + path)),
                ),
            ),
            _ => (StageModel::Done, ActionModel::Finish(Ok(()))),
        },
        StageModel::MarkingExecutable => match event {
            EventModel::CommandFinished(outcome) => after_command(
                outcome,
                "chmod実行失敗: "@,
                "実行権限の付与に失敗しました"@,
                (
                    StageModel::ConfiguringPath,
                    ActionModel::Run(ssh_command_of(args, path_setup_script())),
                ),
            ),
            _ => (StageModel::Done, ActionModel::Finish(Ok(()))),
        },
        StageModel::ConfiguringPath => match event {
            EventModel::CommandFinished(outcome) => after_command(
                outcome,
                "PATH設定失敗: "@,
                "PATH設定に失敗しました"@,
                (StageModel::Done, ActionModel::Finish(Ok(()))),
            ),
            _ => (StageModel::Done, ActionModel::Finish(Ok(()))),
        },
        StageModel::Done => (StageModel::Done, ActionModel::Finish(Ok(()))),
    }
}

/// Whether the deployment is at a step that runs a remote command whose
/// failure is fatal.
pub open spec fn runs_fatal_command(stage: StageModel) -> bool {
    stage is CreatingDirectory || stage is Uploading || stage is MarkingExecutable
        || stage is ConfiguringPath
}

/// A command of the deployment that could not be started, or that exited
/// unsuccessfully, ends the deployment with an error; the check for an
/// existing remote executable ends it only where `ssh` could not be started.
pub proof fn law_failed_step_stops(args: ArgsModel, stage: StageModel, outcome: Result<bool, Seq<char>>)
    requires
        runs_fatal_command(stage) || stage is CheckingRemote,
        outcome != Ok::<bool, Seq<char>>(true),
    ensures
        runs_fatal_command(stage) || outcome is Err ==> (deploy_step(
            args,
            stage,
            EventModel::CommandFinished(outcome),
        ) matches (StageModel::Done, ActionModel::Finish(Err(m))) && m.len() > 0),
        stage is CheckingRemote && outcome == Ok::<bool, Seq<char>>(false) ==> deploy_step(
            args,
            stage,
            EventModel::CommandFinished(outcome),
        ) == (StageModel::LocatingLocal, ActionModel::LocateLocalBinary),
{
    reveal_strlit("ssh実行失敗: ");
    reveal_strlit("リモートディレクトリ作成失敗: ");
    reveal_strlit("リモートディレクトリ作成に失敗しました");
    reveal_strlit("scp実行失敗: ");
    reveal_strlit("SCPによるファイル転送に失敗しました");
    reveal_strlit("chmod実行失敗: ");
    reveal_strlit("実行権限の付与に失敗しました");
    reveal_strlit("PATH設定失敗: ");
    reveal_strlit("PATH設定に失敗しました");
}

/// When every command succeeds, the deployment goes through its steps in
/// order: check, locate, create the directory, copy with `scp`, make it
/// executable, set up `PATH`, and ends successfully; a remote executable that
/// is already there ends it successfully at once.
pub proof fn law_successful_steps(args: ArgsModel, local: Seq<char>)
    ensures
        deploy_step(args, StageModel::Start, EventModel::Started).0 == StageModel::CheckingRemote,
        deploy_step(args, StageModel::CheckingRemote, EventModel::CommandFinished(Ok(true)))
            == (StageModel::Done, ActionModel::Finish(Ok(()))),
        deploy_step(args, StageModel::LocatingLocal, EventModel::Located(Ok(local))).0
            == StageModel::CreatingDirectory(local),
        deploy_step(
            args,
            StageModel::CreatingDirectory(local),
            EventModel::CommandFinished(Ok(true)),
        ).0 == StageModel::Uploading,
        deploy_step(args, StageModel::Uploading, EventModel::CommandFinished(Ok(true))).0
            == StageModel::MarkingExecutable,
        deploy_step(args, StageModel::MarkingExecutable, EventModel::CommandFinished(Ok(true))).0
            == StageModel::ConfiguringPath,
        deploy_step(args, StageModel::ConfiguringPath, EventModel::CommandFinished(Ok(true)))
            == (StageModel::Done, ActionModel::Finish(Ok(()))),
        deploy_step(
            args,
            StageModel::CreatingDirectory(local),
            EventModel::CommandFinished(Ok(true)),
        ).1 matches ActionModel::Run((program, cmd)) && program == "scp"@ && cmd.len() >= 2 && cmd[cmd.len() - 2] == local,
        deploy_step(args, StageModel::Uploading, EventModel::CommandFinished(Ok(true))).1
            == ActionModel::Run(ssh_command_of(args, "chmod +x "@ + remote_path_of(args))),
{
}

/// The copy goes to `.cssh/<remote name>` under the remote home directory, and
/// the `PATH` step adds exactly that directory, `$HOME/.cssh`, to `PATH` in
/// `~/.bashrc`, unless the line is there already; the step runs that script
/// on the destination once the copy is executable.
pub proof fn law_path_setup_adds_install_directory(args: ArgsModel)
    ensures
        ({
            let dir = ".cssh"@;
            let line = "export PATH=\"$HOME/"@ + dir + ":$PATH\""@;
            &&& remote_path_of(args) == dir + "/"@ + args.remote_name
            &&& path_setup_script() == "grep -q '"@ + line + "' ~/.bashrc 2>/dev/null || echo '"@
                + line + "' >> ~/.bashrc"@
            &&& deploy_step(
                args,
                StageModel::MarkingExecutable,
                EventModel::CommandFinished(Ok(true)),
            ) == (
                StageModel::ConfiguringPath,
                ActionModel::Run(("ssh"@, args.ssh_options + seq![args.destination, path_setup_script()])),
            )
        }),
{
    reveal_strlit(".cssh");
    reveal_strlit("/");
    reveal_strlit(".cssh/");
    reveal_strlit("export PATH=\"$HOME/");
    reveal_strlit(":$PATH\"");
    reveal_strlit("grep -q '");
    reveal_strlit("' ~/.bashrc 2>/dev/null || echo '");
    reveal_strlit("' >> ~/.bashrc");
    reveal_strlit(
        "grep -q 'export PATH=\"$HOME/.cssh:$PATH\"' ~/.bashrc 2>/dev/null || echo 'export PATH=\"$HOME/.cssh:$PATH\"' >> ~/.bashrc",
    );
    assert(".cssh/"@ =~= ".cssh"@ + "/"@);
    assert(".cssh/"@ + args.remote_name =~= ".cssh"@ + "/"@ + args.remote_name);
    let line = "export PATH=\"$HOME/"@ + ".cssh"@ + ":$PATH\""@;
    assert(path_setup_script() =~= "grep -q '"@ + line + "' ~/.bashrc 2>/dev/null || echo '"@
        + line + "' >> ~/.bashrc"@);
}

fn finish_command(
    outcome: Result<bool, String>,
    spawn_failure: &str,
    status_failure: &str,
    next: (DeployStage, DeployAction),
) -> (r: (DeployStage, DeployAction))
    ensures
        (r.0@, r.1@) == after_command(
            match outcome {
                Ok(b) => Ok(b),
                Err(e) => Err(e@),
            },
            spawn_failure@,
            status_failure@,
            (next.0@, next.1@),
        ),
{
    match outcome {
        Err(e) => (
            DeployStage::Done,
            DeployAction::Finish(Err(String::from_str(spawn_failure).concat(e.as_str()))),
        ),
        Ok(false) => (DeployStage::Done, DeployAction::Finish(Err(String::from_str(status_failure)))),
        Ok(true) => next,
    }
}

/// One step of deploying the remote executable: given the stage reached and
/// the report of the last action, the next stage and what to do.
pub fn deploy_remote_binary(args: &CsshArgs, stage: DeployStage, event: DeployEvent) -> (r: (
    DeployStage,
    DeployAction,
))
    requires
        event_fits(stage@, event@),
    ensures
        (r.0@, r.1@) == deploy_step(args@, stage@, event@),
{
    let path = remote_binary_path(args);
    match stage {
        DeployStage::Start => {
            let check = String::from_str("test -x ").concat(path.as_str());
            (DeployStage::CheckingRemote, DeployAction::Run(ssh_command(args, check.as_str())))
        },
        DeployStage::CheckingRemote => match event {
            DeployEvent::CommandFinished(Err(e)) => (
                DeployStage::Done,
                DeployAction::Finish(Err(String::from_str("ssh実行失敗: ").concat(e.as_str()))),
            ),
            DeployEvent::CommandFinished(Ok(true)) => (DeployStage::Done, DeployAction::Finish(Ok(()))),
            _ => (DeployStage::LocatingLocal, DeployAction::LocateLocalBinary),
        },
        DeployStage::LocatingLocal => match event {
            DeployEvent::Located(Ok(local)) => (
                DeployStage::CreatingDirectory { local },
                DeployAction::Run(ssh_command(args, "mkdir -p ~/.cssh")),
            ),
            DeployEvent::Located(Err(e)) => (DeployStage::Done, DeployAction::Finish(Err(e))),
            _ => (DeployStage::Done, DeployAction::Finish(Ok(()))),
        },
        DeployStage::CreatingDirectory { local } => match event {
            DeployEvent::CommandFinished(outcome) => {
                let upload = scp_command(args, local.as_str(), path.as_str());
                finish_command(
                    outcome,
                    "リモートディレクトリ作成失敗: ",
                    "リモートディレクトリ作成に失敗しました",
                    (DeployStage::Uploading, DeployAction::Run(upload)),
                )
            },
            _ => (DeployStage::Done, DeployAction::Finish(Ok(()))),
        },
        DeployStage::Uploading => match event {
            DeployEvent::CommandFinished(outcome) => {
                let chmod = String::from_str("chmod +x ").concat(path.as_str());
                finish_command(
                    outcome,
                    "scp実行失敗: ",
                    "SCPによるファイル転送に失敗しました",
                    (
                        DeployStage::MarkingExecutable,
                        DeployAction::Run(ssh_command(args, chmod.as_str())),
                    ),
                )
            },
            _ => (DeployStage::Done, DeployAction::Finish(Ok(()))),
        },
        DeployStage::MarkingExecutable => match event {
            DeployEvent::CommandFinished(outcome) => {
                let script = path_setup_text();
                finish_command(
                    outcome,
                    "chmod実行失敗: ",
                    "実行権限の付与に失敗しました",
                    (DeployStage::ConfiguringPath, DeployAction::Run(ssh_command(args, script))),
                )
            },
            _ => (DeployStage::Done, DeployAction::Finish(Ok(()))),
        },
        DeployStage::ConfiguringPath => match event {
            DeployEvent::CommandFinished(outcome) => finish_command(
                outcome,
                "PATH設定失敗: ",
                "PATH設定に失敗しました",
                (DeployStage::Done, DeployAction::Finish(Ok(()))),
            ),
            _ => (DeployStage::Done, DeployAction::Finish(Ok(()))),
        },
        DeployStage::Done => (DeployStage::Done, DeployAction::Finish(Ok(()))),
    }
}

fn path_setup_text() -> (r: &'static str)
    ensures
        r@ == path_setup_script(),
{
    "grep -q 'export PATH=\"$HOME/.cssh:$PATH\"' ~/.bashrc 2>/dev/null || echo 'export PATH=\"$HOME/.cssh:$PATH\"' >> ~/.bashrc"
}

} // verus!
