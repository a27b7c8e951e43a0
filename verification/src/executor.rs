use vstd::prelude::*;
use vstd::utf8::encode_utf8;

use crate::command::{push_text, CommandLine};
use crate::error::CsshError;
use crate::platform::Platform;
use crate::protocol::{ExecuteRequest, ExecuteResponse};
use crate::text::{chars_of, spells};

verus! {

/// `c` with an ASCII capital letter turned into its small letter.
pub open spec fn ascii_lower(c: char) -> char {
    if 'A' <= c && c <= 'Z' {
        ((c as int) + 32) as char
    } else {
        c
    }
}

/// `s` with its ASCII capital letters turned into small letters.
pub open spec fn ascii_lowercase(s: Seq<char>) -> Seq<char> {
    s.map_values(|c: char| ascii_lower(c))
}

/// Whether `s` ends with `suffix`.
pub open spec fn ends_with(s: Seq<char>, suffix: Seq<char>) -> bool {
    s.len() >= suffix.len() && s.subrange(s.len() - suffix.len(), s.len() as int) == suffix
}

/// Whether the program name `s` names a batch script: it ends with `.cmd` or
/// `.bat`, in any mix of ASCII case.
pub open spec fn is_batch_script(s: Seq<char>) -> bool {
    ends_with(ascii_lowercase(s), ".cmd"@) || ends_with(ascii_lowercase(s), ".bat"@)
}

/// A name ending in `.cmd` or `.bat`, in small or capital letters, names a
/// batch script.
pub proof fn law_batch_script_suffixes(s: Seq<char>)
    ensures
        is_batch_script(s + ".cmd"@),
        is_batch_script(s + ".bat"@),
        is_batch_script(s + ".CMD"@),
        is_batch_script(s + ".BAT"@),
{
    reveal_strlit(".cmd");
    reveal_strlit(".bat");
    reveal_strlit(".CMD");
    reveal_strlit(".BAT");
    let n = s.len() as int;
    assert(ascii_lowercase(s + ".cmd"@).subrange(n, n + 4) =~= ".cmd"@);
    assert(ascii_lowercase(s + ".bat"@).subrange(n, n + 4) =~= ".bat"@);
    assert(ascii_lowercase(s + ".CMD"@).subrange(n, n + 4) =~= ".cmd"@);
    assert(ascii_lowercase(s + ".BAT"@).subrange(n, n + 4) =~= ".bat"@);
}

fn ascii_lower_char(c: char) -> (r: char)
    ensures
        r == ascii_lower(c),
{
    if 'A' <= c && c <= 'Z' {
        let b: u8 = (c as u8) + 32;
        b as char
    } else {
        c
    }
}

/// `v` with its ASCII capital letters turned into small letters.
pub fn lowercase_chars(v: &[char]) -> (r: Vec<char>)
    ensures
        r@ == ascii_lowercase(v@),
{
    let n = v.len();
    let mut lower: Vec<char> = Vec::new();
    for i in 0..n
        invariant
            n == v@.len(),
            lower@ == ascii_lowercase(v@.take(i as int)),
    {
        lower.push(ascii_lower_char(v[i]));
        assert(ascii_lowercase(v@.take(i + 1)) =~= ascii_lowercase(v@.take(i as int)).push(
            ascii_lower(v@[i as int]),
        ));
    }
    assert(v@.take(n as int) =~= v@);
    lower
}

/// Whether `program` ends with `.cmd` or `.bat`, ignoring ASCII case.
pub fn is_cmd_or_bat(program: &str) -> (r: bool)
    ensures
        r == is_batch_script(program@),
{
    let v = chars_of(program);
    let n = v.len();
    let lower = lowercase_chars(v.as_slice());
    proof {
        reveal_strlit(".cmd");
        reveal_strlit(".bat");
    }
    if n < 4 {
        return false;
    }
    let tail = vstd::slice::slice_subrange(lower.as_slice(), n - 4, n);
    spells(tail, ".cmd") || spells(tail, ".bat")
}

/// Whether `cmd.exe` gives `c` a meaning of its own.
pub open spec fn is_cmd_meta(c: char) -> bool {
    c == '&' || c == '|' || c == '(' || c == ')' || c == '<' || c == '>' || c == '^' || c == '"'
        || c == '%' || c == '!'
}

/// `s` with a `^` put before each character that `cmd.exe` interprets.
pub open spec fn escape_cmd(s: Seq<char>) -> Seq<char>
    decreases s.len(),
{
    if s.len() == 0 {
        Seq::empty()
    } else {
        escape_cmd(s.drop_last()) + if is_cmd_meta(s.last()) {
            seq!['^', s.last()]
        } else {
            seq![s.last()]
        }
    }
}

fn is_cmd_meta_char(c: char) -> (r: bool)
    ensures
        r == is_cmd_meta(c),
{
    c == '&' || c == '|' || c == '(' || c == ')' || c == '<' || c == '>' || c == '^' || c == '"'
        || c == '%' || c == '!'
}

/// Escapes one argument for `cmd /C`: each shell metacharacter gets a `^`
/// before it.
pub fn escape_cmd_arg(arg: &str) -> (r: String)
    ensures
        r@ == escape_cmd(arg@),
{
    let v = chars_of(arg);
    let n = v.len();
    let mut escaped = String::new();
    let mut start: usize = 0;
    for i in 0..n
        invariant
            n == v@.len(),
            v@ == arg@,
            start <= i,
            escape_cmd(v@.take(i as int)) == escaped@ + v@.subrange(start as int, i as int),
    {
        let c = v[i];
        proof {
            assert(v@.take(i + 1).drop_last() =~= v@.take(i as int));
            assert(v@.take(i + 1).last() == c);
        }
        if is_cmd_meta_char(c) {
            proof {
                reveal_strlit("^");
            }
            let ghost before = escaped@;
            let ghost old_start = start;
            escaped.append(arg.substring_char(start, i));
            escaped.append("^");
            start = i;
            assert(escape_cmd(v@.take(i + 1)) == escape_cmd(v@.take(i as int)) + seq!['^', c]);
            assert(escaped@ =~= before + v@.subrange(old_start as int, i as int) + seq!['^']);
            assert(v@.subrange(start as int, i + 1) =~= seq![c]);
            assert(escape_cmd(v@.take(i + 1)) =~= escaped@ + v@.subrange(start as int, i + 1));
        } else {
            assert(escape_cmd(v@.take(i + 1)) =~= escaped@ + v@.subrange(start as int, i + 1));
        }
    }
    escaped.append(arg.substring_char(start, n));
    assert(v@.take(n as int) =~= v@);
    escaped
}

/// How `cmd.exe` reads `s`: a `^` makes the character after it plain text and
/// is itself dropped; `None` where an unescaped metacharacter (or a `^` at the
/// end) would be interpreted.
pub open spec fn cmd_read(s: Seq<char>) -> Option<Seq<char>>
    decreases s.len(),
{
    if s.len() == 0 {
        Some(Seq::empty())
    } else if s[0] == '^' {
        if s.len() >= 2 {
            match cmd_read(s.skip(2)) {
                Some(t) => Some(seq![s[1]] + t),
                None => None,
            }
        } else {
            None
        }
    } else if is_cmd_meta(s[0]) {
        None
    } else {
        match cmd_read(s.skip(1)) {
            Some(t) => Some(seq![s[0]] + t),
            None => None,
        }
    }
}

proof fn lemma_escape_concat(a: Seq<char>, b: Seq<char>)
    ensures
        escape_cmd(a + b) == escape_cmd(a) + escape_cmd(b),
    decreases b.len(),
{
    if b.len() == 0 {
        assert(a + b =~= a);
        assert(escape_cmd(a) + escape_cmd(b) =~= escape_cmd(a));
    } else {
        lemma_escape_concat(a, b.drop_last());
        assert((a + b).drop_last() =~= a + b.drop_last());
        assert((a + b).last() == b.last());
    }
}

/// An escaped argument, as `cmd.exe` reads it, is the argument itself: no
/// metacharacter of it is left for `cmd.exe` to interpret.
pub proof fn law_escape_is_read_back(s: Seq<char>)
    ensures
        cmd_read(escape_cmd(s)) == Some(s),
    decreases s.len(),
{
    if s.len() > 0 {
        let head = seq![s[0]];
        let rest = s.skip(1);
        assert(s =~= head + rest);
        lemma_escape_concat(head, rest);
        assert(head.drop_last() =~= Seq::<char>::empty());
        assert(escape_cmd(head.drop_last()) =~= Seq::<char>::empty());
        assert(head.last() == s[0]);
        let e = escape_cmd(rest);
        law_escape_is_read_back(rest);
        if is_cmd_meta(s[0]) {
            assert(escape_cmd(head) =~= seq!['^', s[0]]);
            assert((escape_cmd(head) + e).skip(2) =~= e);
        } else {
            assert(escape_cmd(head) =~= seq![s[0]]);
            assert((escape_cmd(head) + e).skip(1) =~= e);
        }
        assert(seq![s[0]] + rest =~= s);
    } else {
        assert(escape_cmd(s) =~= Seq::<char>::empty());
    }
}

/// The command that runs `args` on `platform`. On Windows a batch script runs
/// through `cmd /C`, its arguments escaped; anything else runs directly.
pub open spec fn command_for(args: Seq<Seq<char>>, platform: Platform) -> (
    Seq<char>,
    Seq<Seq<char>>,
) {
    if platform == Platform::Windows && is_batch_script(args[0]) {
        ("cmd"@, seq!["/C"@, args[0]] + args.skip(1).map_values(|a: Seq<char>| escape_cmd(a)))
    } else {
        (args[0], args.skip(1))
    }
}

/// Anything but a batch script on Windows runs directly, its arguments handed
/// over unchanged; a batch script on Windows runs as `cmd /C script ...`, and
/// each of its arguments, as `cmd.exe` reads it, is the argument given.
pub proof fn law_command_for(args: Seq<Seq<char>>, platform: Platform)
    requires
        args.len() > 0,
    ensures
        (platform == Platform::Unix || !is_batch_script(args[0])) ==> command_for(args, platform)
            == (args[0], args.skip(1)),
        (platform == Platform::Windows && is_batch_script(args[0])) ==> {
            let (program, rest) = command_for(args, platform);
            &&& program == "cmd"@
            &&& rest.len() == args.len() + 1
            &&& rest[0] == "/C"@
            &&& rest[1] == args[0]
            &&& forall|i: int| 1 <= i < args.len() ==> cmd_read(#[trigger] rest[i + 1]) == Some(
                args[i],
            )
        },
{
    if platform == Platform::Windows && is_batch_script(args[0]) {
        let rest = command_for(args, platform).1;
        assert forall|i: int| 1 <= i < args.len() implies cmd_read(#[trigger] rest[i + 1])
            == Some(args[i]) by {
            assert(rest[i + 1] == escape_cmd(args.skip(1)[i - 1]));
            law_escape_is_read_back(args[i]);
        }
    }
}

/// Builds the command line for `args`: the first is the program, the others
/// its arguments; on Windows a `.cmd` or `.bat` program runs through `cmd /C`
/// with its arguments escaped.
pub fn build_command(args: &[String], platform: Platform) -> (r: CommandLine)
    requires
        args@.len() > 0,
    ensures
        r@ == command_for(args.deep_view(), platform),
{
    let n = args.len();
    let ghost a = args.deep_view();
    if platform == Platform::Windows && is_cmd_or_bat(args[0].as_str()) {
        proof {
            reveal_strlit("cmd");
            reveal_strlit("/C");
        }
        let mut rest: Vec<String> = Vec::new();
        push_text(&mut rest, "/C");
        push_text(&mut rest, args[0].as_str());
        for i in 1..n
            invariant
                n == args@.len(),
                a == args.deep_view(),
                rest.deep_view() == seq!["/C"@, a[0]] + a.skip(1).take(i - 1).map_values(
                    |s: Seq<char>| escape_cmd(s),
                ),
        {
            let ghost before = rest.deep_view();
            let escaped = escape_cmd_arg(args[i].as_str());
            let ghost prev = rest@;
            rest.push(escaped);
            proof {
                let want = seq!["/C"@, a[0]] + a.skip(1).take(i as int).map_values(
                    |s: Seq<char>| escape_cmd(s),
                );
                assert(a.skip(1).take(i as int) =~= a.skip(1).take(i - 1).push(a[i as int]));
                assert(before.len() == prev.len());
                assert(want.len() == prev.len() + 1);
                assert(a[i as int] == args@[i as int]@);
                assert forall|k: int| 0 <= k < rest@.len() implies #[trigger] rest.deep_view()[k]
                    == want[k] by {
                    if k < prev.len() {
                        assert(rest@[k] == prev[k]);
                        assert(before[k] == prev[k]@);
                    } else {
                        assert(rest@[k] == escaped);
                        assert(want[k] == escape_cmd(a[i as int]));
                    }
                }
                assert(rest.deep_view() =~= want);
            }
        }
        assert(a.skip(1).take(n - 1) =~= a.skip(1));
        CommandLine { program: String::from_str("cmd"), args: rest }
    } else {
        let mut rest: Vec<String> = Vec::new();
        crate::command::push_all(&mut rest, vstd::slice::slice_subrange(args, 1, n));
        assert(rest.deep_view() =~= a.skip(1));
        CommandLine { program: args[0].clone(), args: rest }
    }
}

/// What the agent does with a request: answer at once, or run a command first.
pub enum ExecutionPlan {
    /// Answer with this response; there is nothing to run.
    Respond(ExecuteResponse),
    /// Run this command, then answer with what it gave.
    Run(CommandLine),
}

/// What a finished child process left behind.
pub struct ProcessOutput {
    /// The exit code, where the process exited with one.
    pub status_code: Option<i32>,
    /// The captured standard output.
    pub stdout: Vec<u8>,
    /// The captured standard error.
    pub stderr: Vec<u8>,
}

/// Decides what a request asks the agent to do: a request with no command is
/// answered at once with exit code 1 and the text `no command specified` on
/// standard error; any other request names the command line to run.
pub fn execute(request: &ExecuteRequest, platform: Platform) -> (r: ExecutionPlan)
    ensures
        request.args@.len() == 0 ==> (r matches ExecutionPlan::Respond(resp) && resp.exit_code
            == 1 && resp.stdout@ == Seq::<u8>::empty() && resp.stderr@ == encode_utf8(
            "no command specified"@,
        )),
        request.args@.len() > 0 ==> (r matches ExecutionPlan::Run(cmd) && cmd@ == command_for(
            request.args.deep_view(),
            platform,
        )),
{
    if request.args.len() == 0 {
        return ExecutionPlan::Respond(
            ExecuteResponse {
                exit_code: 1,
                stdout: Vec::new(),
                stderr: crate::text::utf8_bytes("no command specified"),
            },
        );
    }
    ExecutionPlan::Run(build_command(request.args.as_slice(), platform))
}

/// Turns what running the command gave into the agent's result: the exit code
/// (or -1 where the process ended without one) and the captured output, or an
/// execution error carrying the reason the command could not be started.
pub fn finish_execution(outcome: Result<ProcessOutput, String>) -> (r: Result<
    ExecuteResponse,
    CsshError,
>)
    ensures
        outcome matches Ok(out) ==> (r matches Ok(resp) && resp.exit_code == (match out.status_code {
            Some(c) => c,
            None => -1i32,
        }) && resp.stdout@ == out.stdout@ && resp.stderr@ == out.stderr@),
        outcome matches Err(reason) ==> (r matches Err(CsshError::Execution(m)) && m@ == reason@),
{
    match outcome {
        Ok(out) => {
            let exit_code = match out.status_code {
                Some(c) => c,
                None => -1,
            };
            Ok(ExecuteResponse { exit_code, stdout: out.stdout, stderr: out.stderr })
        },
        Err(reason) => Err(CsshError::Execution(reason)),
    }
}

} // verus!
