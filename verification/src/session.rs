use vstd::prelude::*;

use crate::args::CsshArgs;
use crate::command::{push_all, push_text, CommandLine};
use crate::text::{decimal, decimal_text, parse_u16, parse_u16_text, trim, trim_text};

verus! {

/// The arguments that give `ssh` a reverse tunnel from the remote port
/// `port` to the agent's port on the host, and hand the port to the remote
/// shell in `CSSH_PORT`.
pub open spec fn tunnel_arguments(port: u16) -> Seq<Seq<char>> {
    let p = decimal(port as nat);
    seq![
        "-R"@,
        p + ":127.0.0.1:"@ + p,
        "-o"@,
        "SendEnv=CSSH_PORT"@,
        "-o"@,
        "SetEnv=CSSH_PORT="@ + p,
    ]
}

/// The tunnel forwards the agent's port on the remote side to the same port
/// on the host's loopback address, and hands that port, in decimal, to the
/// remote shell in `CSSH_PORT`, where it reads back as the port.
pub proof fn law_tunnel_arguments(port: u16)
    ensures
        ({
            let p = decimal(port as nat);
            let t = tunnel_arguments(port);
            &&& t.len() == 6
            &&& t[0] == "-R"@
            &&& t[1] == p + ":127.0.0.1:"@ + p
            &&& t[2] == "-o"@ && t[3] == "SendEnv=CSSH_PORT"@
            &&& t[4] == "-o"@ && t[5] == "SetEnv=CSSH_PORT="@ + p
            &&& parse_u16(p) == Some(port)
        }),
{
    crate::text::law_decimal_round_trip(port);
}

/// The `ssh` command of a session: the tunnel to the agent on `agent_port`,
/// the user's `ssh` options, the destination, then the remote command.
pub fn session_command(args: &CsshArgs, agent_port: u16) -> (r: CommandLine)
    ensures
        r@ == (
            "ssh"@,
            tunnel_arguments(agent_port) + args.ssh_options.deep_view() + seq![args.destination@]
                + args.remote_command.deep_view(),
        ),
{
    let port = decimal_text(agent_port);
    let tunnel = port.clone().concat(":127.0.0.1:").concat(port.as_str());
    let set_env = String::from_str("SetEnv=CSSH_PORT=").concat(port.as_str());
    let mut out: Vec<String> = Vec::new();
    proof {
        assert(out.deep_view() =~= Seq::<Seq<char>>::empty());
    }
    push_text(&mut out, "-R");
    push_text(&mut out, tunnel.as_str());
    push_text(&mut out, "-o");
    push_text(&mut out, "SendEnv=CSSH_PORT");
    push_text(&mut out, "-o");
    push_text(&mut out, set_env.as_str());
    assert(out.deep_view() =~= tunnel_arguments(agent_port));
    push_all(&mut out, args.ssh_options.as_slice());
    push_text(&mut out, args.destination.as_str());
    push_all(&mut out, args.remote_command.as_slice());
    CommandLine { program: String::from_str("ssh"), args: out }
}

/// Reads the port number the agent printed on its first line of output.
pub fn parse_agent_port(line: &str) -> (r: Result<u16, String>)
    ensures
        parse_u16(trim(line@)) matches Some(p) ==> r == Ok::<u16, String>(p),
        parse_u16(trim(line@)) is None ==> (r matches Err(m) && m@ == "不正なポート番号: '"@
            + trim(line@) + "'"@),
{
    let t = trim_text(line);
    match parse_u16_text(t) {
        Some(p) => Ok(p),
        None => Err(String::from_str("不正なポート番号: '").concat(t).concat("'")),
    }
}

/// The exit code of `cssh` after the `ssh` session: the session's own, or 1
/// where `ssh` ended without one.
pub fn session_exit_code(code: Option<i32>) -> (r: i32)
    ensures
        r == (match code {
            Some(c) => c,
            None => 1i32,
        }),
{
    match code {
        Some(c) => c,
        None => 1,
    }
}

/// The line the agent prints for its port, read back, gives that port.
pub proof fn law_agent_port_round_trip(port: u16)
    ensures
        parse_u16(trim(decimal(port as nat).push('\n'))) == Some(port),
{
    let d = decimal(port as nat);
    let s = d.push('\n');
    crate::text::law_decimal_round_trip(port);
    crate::text::lemma_decimal_shape(port as nat);
    assert(!crate::text::is_whitespace(s[0]));
    assert(crate::text::trim_start(s) == s);
    assert(s.drop_last() =~= d);
    assert(crate::text::trim_end(s) == crate::text::trim_end(d));
    assert(crate::text::trim_end(d) == d);
}

} // verus!
