use vstd::prelude::*;

use crate::command::push_all;
use crate::text::{chars_of, parse_u16, parse_u16_text, text_equal};

verus! {

/// The arguments of the `cssh` command line.
#[derive(Debug, Clone)]
pub struct CsshArgs {
    /// The name of the executable on the remote side.
    pub remote_name: String,
    /// The port the agent listens on (0: let the system pick one).
    pub listen_port: u16,
    /// The options passed through to `ssh` (`-p`, `-i`, ...), values included.
    pub ssh_options: Vec<String>,
    /// Where to connect (`user@host`).
    pub destination: String,
    /// The command to run on the remote side (what follows `--`).
    pub remote_command: Vec<String>,
}

/// The meaning of a `CsshArgs`.
pub struct ArgsModel {
    pub remote_name: Seq<char>,
    pub listen_port: u16,
    pub ssh_options: Seq<Seq<char>>,
    pub destination: Seq<char>,
    pub remote_command: Seq<Seq<char>>,
}

impl View for CsshArgs {
    type V = ArgsModel;

    open spec fn view(&self) -> ArgsModel {
        ArgsModel {
            remote_name: self.remote_name@,
            listen_port: self.listen_port,
            ssh_options: self.ssh_options.deep_view(),
            destination: self.destination@,
            remote_command: self.remote_command.deep_view(),
        }
    }
}

/// What the options read so far have set.
pub struct ScanState {
    pub remote_name: Seq<char>,
    pub listen_port: u16,
    pub ssh_options: Seq<Seq<char>>,
    pub destination: Option<Seq<char>>,
}

/// The settings before any option is read.
pub open spec fn initial_scan() -> ScanState {
    ScanState {
        remote_name: "cexec"@,
        listen_port: 0,
        ssh_options: Seq::empty(),
        destination: None,
    }
}

/// Whether the `ssh` option `opt` takes the next argument as its value.
pub open spec fn takes_value(opt: Seq<char>) -> bool {
    opt == "-p"@ || opt == "-i"@ || opt == "-l"@ || opt == "-o"@ || opt == "-F"@ || opt == "-J"@
        || opt == "-W"@
}

/// Reads the options from position `i` on, starting from the settings `st`.
/// Gives the final settings and the position where the remote command begins
/// (just after the first `--`, or the end), or the error message.
pub open spec fn scan(args: Seq<Seq<char>>, i: int, st: ScanState) -> Result<
    (ScanState, int),
    Seq<char>,
>
    decreases args.len() - i,
{
    if i >= args.len() || i < 0 {
        Ok((st, args.len() as int))
    } else {
        let a = args[i];
        if a == "--"@ {
            Ok((st, i + 1))
        } else if a == "--remote-name"@ {
            if i + 1 < args.len() {
                scan(
                    args,
                    i + 2,
                    ScanState {
                        remote_name: args[i + 1],
                        listen_port: st.listen_port,
                        ssh_options: st.ssh_options,
                        destination: st.destination,
                    },
                )
            } else {
                Err("--remote-name requires a value"@)
            }
        } else if a == "--listen-port"@ {
            if i + 1 < args.len() {
                match parse_u16(args[i + 1]) {
                    Some(port) => scan(
                        args,
                        i + 2,
                        ScanState {
                            remote_name: st.remote_name,
                            listen_port: port,
                            ssh_options: st.ssh_options,
                            destination: st.destination,
                        },
                    ),
                    None => Err("--listen-port must be a number"@),
                }
            } else {
                Err("--listen-port requires a value"@)
            }
        } else if a.len() > 0 && a[0] == '-' {
            if takes_value(a) {
                if i + 1 < args.len() {
                    scan(
                        args,
                        i + 2,
                        ScanState {
                            remote_name: st.remote_name,
                            listen_port: st.listen_port,
                            ssh_options: st.ssh_options.push(a).push(args[i + 1]),
                            destination: st.destination,
                        },
                    )
                } else {
                    Err(a + " requires a value"@)
                }
            } else {
                scan(
                    args,
                    i + 1,
                    ScanState {
                        remote_name: st.remote_name,
                        listen_port: st.listen_port,
                        ssh_options: st.ssh_options.push(a),
                        destination: st.destination,
                    },
                )
            }
        } else {
            scan(
                args,
                i + 1,
                ScanState {
                    remote_name: st.remote_name,
                    listen_port: st.listen_port,
                    ssh_options: st.ssh_options,
                    destination: Some(a),
                },
            )
        }
    }
}

/// The meaning of the command line `args`:
/// `[--remote-name NAME] [--listen-port PORT] [SSH_OPTIONS...] <destination> [-- <COMMAND...>]`,
/// where the last argument that is not an option is the destination.
pub open spec fn parse_args(args: Seq<Seq<char>>) -> Result<ArgsModel, Seq<char>> {
    match scan(args, 0, initial_scan()) {
        Err(e) => Err(e),
        Ok((st, k)) => match st.destination {
            None => Err("destination is required"@),
            Some(d) => Ok(
                ArgsModel {
                    remote_name: st.remote_name,
                    listen_port: st.listen_port,
                    ssh_options: st.ssh_options,
                    destination: d,
                    remote_command: args.skip(k),
                },
            ),
        },
    }
}

/// The meaning of a parse result.
pub open spec fn parse_result_view(r: Result<CsshArgs, String>) -> Result<ArgsModel, Seq<char>> {
    match r {
        Ok(a) => Ok(a@),
        Err(e) => Err(e@),
    }
}

/// The text of an optional `String`.
pub open spec fn optional_text(o: Option<String>) -> Option<Seq<char>> {
    match o {
        Some(s) => Some(s@),
        None => None,
    }
}

fn takes_value_text(arg: &str) -> (r: bool)
    ensures
        r == takes_value(arg@),
{
    text_equal(arg, "-p") || text_equal(arg, "-i") || text_equal(arg, "-l") || text_equal(arg, "-o")
        || text_equal(arg, "-F") || text_equal(arg, "-J") || text_equal(arg, "-W")
}

/// Parses a `cssh` command line (the arguments after the program name).
pub fn parse_from(args: &[String]) -> (r: Result<CsshArgs, String>)
    ensures
        parse_result_view(r) == parse_args(args.deep_view()),
{
    let ghost a = args.deep_view();
    let mut remote_name = String::from_str("cexec");
    let mut listen_port: u16 = 0;
    let mut ssh_options: Vec<String> = Vec::new();
    let mut destination: Option<String> = None;
    let mut remote_command: Vec<String> = Vec::new();
    let n = args.len();
    let mut i: usize = 0;
    let mut found_separator = false;
    proof {
        reveal_strlit("cexec");
        assert(ssh_options.deep_view() =~= Seq::<Seq<char>>::empty());
    }
    while i < n
        invariant_except_break
            i <= n,
            n == a.len(),
            a == args.deep_view(),
            !found_separator,
            scan(a, 0, initial_scan()) == scan(
                a,
                i as int,
                ScanState {
                    remote_name: remote_name@,
                    listen_port: listen_port,
                    ssh_options: ssh_options.deep_view(),
                    destination: optional_text(destination),
                },
            ),
        ensures
            i <= n,
            n == a.len(),
            a == args.deep_view(),
            scan(a, 0, initial_scan()) == Ok::<(ScanState, int), Seq<char>>(
                (
                    ScanState {
                        remote_name: remote_name@,
                        listen_port: listen_port,
                        ssh_options: ssh_options.deep_view(),
                        destination: optional_text(destination),
                    },
                    if found_separator {
                        i as int
                    } else {
                        n as int
                    },
                ),
            ),
        decreases n - i,
    {
        let arg = args[i].as_str();
        assert(a[i as int] == arg@);
        if text_equal(arg, "--") {
            found_separator = true;
            i = i + 1;
            break;
        }
        if text_equal(arg, "--remote-name") {
            i = i + 1;
            if i >= n {
                return Err(String::from_str("--remote-name requires a value"));
            }
            remote_name = args[i].clone();
        } else if text_equal(arg, "--listen-port") {
            i = i + 1;
            if i >= n {
                return Err(String::from_str("--listen-port requires a value"));
            }
            match parse_u16_text(args[i].as_str()) {
                Some(port) => {
                    listen_port = port;
                },
                None => {
                    return Err(String::from_str("--listen-port must be a number"));
                },
            }
        } else if starts_with_dash(arg) {
            crate::command::push_text(&mut ssh_options, arg);
            if takes_value_text(arg) {
                i = i + 1;
                if i >= n {
                    return Err(String::from_str(arg).concat(" requires a value"));
                }
                crate::command::push_text(&mut ssh_options, args[i].as_str());
            }
        } else {
            destination = Some(args[i].clone());
        }
        i = i + 1;
    }
    if found_separator {
        push_all(&mut remote_command, vstd::slice::slice_subrange(args, i, n));
        assert(remote_command.deep_view() =~= a.skip(i as int));
    } else {
        assert(remote_command.deep_view() =~= a.skip(n as int));
    }
    match destination {
        None => Err(String::from_str("destination is required")),
        Some(destination) => Ok(
            CsshArgs { remote_name, listen_port, ssh_options, destination, remote_command },
        ),
    }
}

/// Whether the argument `a` starts with `-`.
pub open spec fn is_dash(a: Seq<char>) -> bool {
    a.len() > 0 && a[0] == '-'
}

/// Whether the argument `a` is an option that takes the next argument as its
/// value.
pub open spec fn takes_next(a: Seq<char>) -> bool {
    a == "--remote-name"@ || a == "--listen-port"@ || (is_dash(a) && takes_value(a))
}

/// The position after the option at `j` (and its value, where it takes one).
pub open spec fn next_position(args: Seq<Seq<char>>, j: int) -> int {
    if takes_next(args[j]) {
        j + 2
    } else {
        j + 1
    }
}

/// Whether reading the arguments from position `i` gets to position `j`: each
/// step passes over one argument, with its value where it takes one, and no
/// step passes over a `--`.
pub open spec fn reaches(args: Seq<Seq<char>>, i: int, j: int) -> bool
    decreases j - i,
{
    if i >= j {
        i == j
    } else {
        0 <= i < args.len() && args[i] != "--"@ && next_position(args, i) <= j && reaches(
            args,
            next_position(args, i),
            j,
        )
    }
}

/// Whether the argument at `j` is read as an option or a destination when
/// reading starts at `i`: it is reached, and it is not the separator.
pub open spec fn read_at(args: Seq<Seq<char>>, i: int, j: int) -> bool {
    reaches(args, i, j) && j < args.len() && args[j] != "--"@
}

/// Whether the option at `j` lacks its value, or is `--listen-port` with a
/// value that is not a port number.
pub open spec fn bad_option(args: Seq<Seq<char>>, j: int) -> bool {
    takes_next(args[j]) && (j + 1 >= args.len() || (args[j] == "--listen-port"@ && parse_u16(
        args[j + 1],
    ) is None))
}

proof fn lemma_scan(args: Seq<Seq<char>>, i: int, st: ScanState)
    requires
        0 <= i <= args.len(),
    ensures
        scan(args, i, st) is Ok <==> !(exists|j: int| #[trigger]
            read_at(args, i, j) && bad_option(args, j)),
        scan(args, i, st) matches Ok((st2, k)) ==> {
            &&& ((k == args.len() && forall|j: int| #[trigger]
                reaches(args, i, j) && j < args.len() ==> args[j] != "--"@) || (i < k
                <= args.len() && reaches(args, i, k - 1) && args[k - 1] == "--"@))
            &&& ((st2.destination == st.destination && forall|j: int| #[trigger]
                read_at(args, i, j) ==> is_dash(args[j])) || (exists|j: int| #[trigger]
                read_at(args, i, j) && !is_dash(args[j]) && st2.destination == Some(args[j])
                && forall|j2: int| #[trigger] read_at(args, i, j2) && j2 > j ==> is_dash(args[j2])))
        },
    decreases args.len() - i,
{
    reveal_strlit("--remote-name");
    reveal_strlit("--listen-port");
    assert("--listen-port"@[2] != "--remote-name"@[2]);
    if i == args.len() {
        assert forall|j: int| #[trigger] reaches(args, i, j) implies j == i by {}
        assert forall|j: int| !#[trigger] read_at(args, i, j) by {}
        assert(scan(args, i, st) == Ok::<(ScanState, int), Seq<char>>((st, i)));
    } else {
        let a = args[i];
        if a == "--"@ {
            assert forall|j: int| #[trigger] reaches(args, i, j) implies j == i by {}
            assert forall|j: int| !#[trigger] read_at(args, i, j) by {}
            assert(scan(args, i, st) == Ok::<(ScanState, int), Seq<char>>((st, i + 1)));
            assert(reaches(args, i, i));
        } else {
            let n = next_position(args, i);
            assert forall|j: int| j != i implies #[trigger] reaches(args, i, j) == reaches(args, n, j)
                by {
                if j > i && j < n {
                    assert(!reaches(args, n, j));
                }
            }
            assert forall|j: int| j != i implies #[trigger] read_at(args, i, j) == read_at(args, n, j)
                by {
                assert(reaches(args, i, j) == reaches(args, n, j));
            }
            assert(read_at(args, i, i));
            if takes_next(a) && i + 1 >= args.len() {
                assert(bad_option(args, i));
                if a == "--remote-name"@ {
                    assert(scan(args, i, st) == Err::<(ScanState, int), Seq<char>>(
                        "--remote-name requires a value"@,
                    ));
                } else if a == "--listen-port"@ {
                    assert(scan(args, i, st) == Err::<(ScanState, int), Seq<char>>(
                        "--listen-port requires a value"@,
                    ));
                } else {
                    assert(is_dash(a) && takes_value(a));
                    assert(scan(args, i, st) == Err::<(ScanState, int), Seq<char>>(
                        a + " requires a value"@,
                    ));
                }
            } else if a == "--listen-port"@ && parse_u16(args[i + 1]) is None {
                assert(takes_next(a));
                assert(i + 1 < args.len());
                assert(bad_option(args, i));
                assert(scan(args, i, st) == Err::<(ScanState, int), Seq<char>>(
                    "--listen-port must be a number"@,
                ));
            } else {
                assert(!bad_option(args, i));
                let st1 = if a == "--remote-name"@ {
                    ScanState {
                        remote_name: args[i + 1],
                        listen_port: st.listen_port,
                        ssh_options: st.ssh_options,
                        destination: st.destination,
                    }
                } else if a == "--listen-port"@ {
                    ScanState {
                        remote_name: st.remote_name,
                        listen_port: parse_u16(args[i + 1]).unwrap(),
                        ssh_options: st.ssh_options,
                        destination: st.destination,
                    }
                } else if is_dash(a) {
                    if takes_value(a) {
                        ScanState {
                            remote_name: st.remote_name,
                            listen_port: st.listen_port,
                            ssh_options: st.ssh_options.push(a).push(args[i + 1]),
                            destination: st.destination,
                        }
                    } else {
                        ScanState {
                            remote_name: st.remote_name,
                            listen_port: st.listen_port,
                            ssh_options: st.ssh_options.push(a),
                            destination: st.destination,
                        }
                    }
                } else {
                    ScanState {
                        remote_name: st.remote_name,
                        listen_port: st.listen_port,
                        ssh_options: st.ssh_options,
                        destination: Some(a),
                    }
                };
                assert(scan(args, i, st) == scan(args, n, st1));
                lemma_scan(args, n, st1);
                if exists|j: int| #[trigger] read_at(args, i, j) && bad_option(args, j) {
                    let j = choose|j: int| #[trigger] read_at(args, i, j) && bad_option(args, j);
                    assert(j != i);
                    assert(read_at(args, n, j));
                }
                if exists|j: int| #[trigger] read_at(args, n, j) && bad_option(args, j) {
                    let j = choose|j: int| #[trigger] read_at(args, n, j) && bad_option(args, j);
                    assert(j != i) by {
                        if j == i {
                            assert(reaches(args, n, j));
                        }
                    }
                    assert(read_at(args, i, j));
                }
                if let Ok((st2, k)) = scan(args, n, st1) {
                    assert(read_at(args, i, i));
                    if k == args.len() && forall|j: int| #[trigger]
                        reaches(args, n, j) && j < args.len() ==> args[j] != "--"@ {
                        assert forall|j: int| #[trigger]
                            reaches(args, i, j) && j < args.len() implies args[j] != "--"@ by {
                            if j != i {
                                assert(reaches(args, n, j));
                            }
                        }
                    } else {
                        assert(reaches(args, i, k - 1));
                    }
                    if st2.destination == st1.destination && forall|j: int| #[trigger]
                        read_at(args, n, j) ==> is_dash(args[j]) {
                        if is_dash(a) {
                            assert forall|j: int| #[trigger] read_at(args, i, j) implies is_dash(
                                args[j],
                            ) by {
                                if j != i {
                                    assert(read_at(args, n, j));
                                }
                            }
                        } else {
                            assert forall|j2: int| #[trigger] read_at(args, i, j2) && j2
                                > i implies is_dash(args[j2]) by {
                                assert(read_at(args, n, j2));
                            }
                        }
                    } else {
                        let j = choose|j: int| #[trigger]
                            read_at(args, n, j) && !is_dash(args[j]) && st2.destination == Some(
                                args[j],
                            ) && forall|j2: int| #[trigger]
                                read_at(args, n, j2) && j2 > j ==> is_dash(args[j2]);
                        assert(j != i) by {
                            if j == i {
                                assert(reaches(args, n, j));
                            }
                        }
                        assert(read_at(args, i, j));
                        assert forall|j2: int| #[trigger] read_at(args, i, j2) && j2
                            > j implies is_dash(args[j2]) by {
                            assert(j2 != i);
                            assert(read_at(args, n, j2));
                        }
                    }
                }
            }
        }
    }
}

/// When the `cssh` command line parses, and what it gives: it parses exactly
/// when no option read lacks its value or has a bad port number, and some
/// argument read is not an option; then the destination is the last such
/// argument, and the remote command is everything after the first `--` that is
/// read as a separator (nothing, where there is none).
pub proof fn law_parse_args(args: Seq<Seq<char>>)
    ensures
        parse_args(args) is Ok <==> (!(exists|j: int| #[trigger]
            read_at(args, 0, j) && bad_option(args, j)) && exists|j: int| #[trigger]
            read_at(args, 0, j) && !is_dash(args[j])),
        parse_args(args) matches Ok(m) ==> {
            &&& exists|j: int| #[trigger]
                read_at(args, 0, j) && !is_dash(args[j]) && m.destination == args[j] && forall|
                    j2: int,
                | #[trigger] read_at(args, 0, j2) && j2 > j ==> is_dash(args[j2])
            &&& (exists|k: int| #[trigger]
                reaches(args, 0, k) && k < args.len() && args[k] == "--"@ && m.remote_command
                    == args.skip(k + 1)) || (m.remote_command == Seq::<Seq<char>>::empty()
                && forall|k: int| #[trigger] reaches(args, 0, k) && k < args.len() ==> args[k]
                != "--"@)
        },
{
    lemma_scan(args, 0, initial_scan());
    if let Ok((st2, k)) = scan(args, 0, initial_scan()) {
        if k == args.len() {
            assert(args.skip(k) =~= Seq::<Seq<char>>::empty());
        } else {
            assert(reaches(args, 0, k - 1));
        }
    }
}

/// Each of the `ssh` options `-p`, `-i`, `-l`, `-o`, `-F`, `-J` and `-W`
/// takes the next argument as its value: `[opt, v, d]` passes `opt v` to
/// `ssh` and connects to `d`.
pub proof fn law_ssh_options_take_values(opt: Seq<char>, v: Seq<char>, d: Seq<char>)
    requires
        opt == "-p"@ || opt == "-i"@ || opt == "-l"@ || opt == "-o"@ || opt == "-F"@ || opt
            == "-J"@ || opt == "-W"@,
        !is_dash(v),
        !is_dash(d),
    ensures
        parse_args(seq![opt, v, d]) == Ok::<ArgsModel, Seq<char>>(
            ArgsModel {
                remote_name: "cexec"@,
                listen_port: 0,
                ssh_options: seq![opt, v],
                destination: d,
                remote_command: Seq::empty(),
            },
        ),
{
    reveal_strlit("-p");
    reveal_strlit("-i");
    reveal_strlit("-l");
    reveal_strlit("-o");
    reveal_strlit("-F");
    reveal_strlit("-J");
    reveal_strlit("-W");
    reveal_strlit("--");
    reveal_strlit("--remote-name");
    reveal_strlit("--listen-port");
    let args = seq![opt, v, d];
    assert(opt.len() == 2 && opt[0] == '-' && opt[1] != '-');
    assert(opt != "--"@);
    assert(opt != "--remote-name"@);
    assert(opt != "--listen-port"@);
    assert(is_dash(opt) && takes_value(opt));
    assert(d != "--"@ && d != "--remote-name"@ && d != "--listen-port"@) by {
        if d.len() > 0 {
            assert(d[0] != '-');
        }
    }
    let st1 = ScanState {
        remote_name: "cexec"@,
        listen_port: 0,
        ssh_options: Seq::<Seq<char>>::empty().push(opt).push(v),
        destination: None,
    };
    let st2 = ScanState {
        remote_name: "cexec"@,
        listen_port: 0,
        ssh_options: st1.ssh_options,
        destination: Some(d),
    };
    assert(scan(args, 0, initial_scan()) == scan(args, 2, st1));
    assert(scan(args, 2, st1) == scan(args, 3, st2));
    assert(scan(args, 3, st2) == Ok::<(ScanState, int), Seq<char>>((st2, 3)));
    assert(st1.ssh_options =~= seq![opt, v]);
    assert(args.skip(3) =~= Seq::<Seq<char>>::empty());
}

/// `--remote-name NAME` sets the remote executable's name and
/// `--listen-port PORT` the agent's port, each taking the next argument; an
/// option outside the value-taking list goes to `ssh` alone.
pub proof fn law_options_and_values(name: Seq<char>, port: Seq<char>, opt: Seq<char>, d: Seq<char>)
    requires
        parse_u16(port) is Some,
        is_dash(opt),
        opt != "--"@ && opt != "--remote-name"@ && opt != "--listen-port"@,
        !(opt == "-p"@ || opt == "-i"@ || opt == "-l"@ || opt == "-o"@ || opt == "-F"@ || opt
            == "-J"@ || opt == "-W"@),
        !is_dash(d),
    ensures
        parse_args(seq!["--remote-name"@, name, "--listen-port"@, port, opt, d]) == Ok::<
            ArgsModel,
            Seq<char>,
        >(
            ArgsModel {
                remote_name: name,
                listen_port: parse_u16(port).unwrap(),
                ssh_options: seq![opt],
                destination: d,
                remote_command: Seq::empty(),
            },
        ),
{
    reveal_strlit("--");
    reveal_strlit("--remote-name");
    reveal_strlit("--listen-port");
    let args = seq!["--remote-name"@, name, "--listen-port"@, port, opt, d];
    assert("--remote-name"@.len() == 13 && "--"@.len() == 2 && "--listen-port"@.len() == 13);
    assert("--remote-name"@ != "--"@);
    assert("--listen-port"@ != "--"@);
    assert("--listen-port"@[2] != "--remote-name"@[2]);
    assert(!takes_value(opt));
    assert(d != "--"@ && d != "--remote-name"@ && d != "--listen-port"@) by {
        if d.len() > 0 {
            assert(d[0] != '-');
        }
    }
    let s1 = ScanState {
        remote_name: name,
        listen_port: 0,
        ssh_options: Seq::empty(),
        destination: None,
    };
    let s2 = ScanState {
        remote_name: name,
        listen_port: parse_u16(port).unwrap(),
        ssh_options: Seq::empty(),
        destination: None,
    };
    let s3 = ScanState {
        remote_name: name,
        listen_port: parse_u16(port).unwrap(),
        ssh_options: Seq::<Seq<char>>::empty().push(opt),
        destination: None,
    };
    let s4 = ScanState {
        remote_name: name,
        listen_port: parse_u16(port).unwrap(),
        ssh_options: s3.ssh_options,
        destination: Some(d),
    };
    assert(scan(args, 0, initial_scan()) == scan(args, 2, s1));
    assert(scan(args, 2, s1) == scan(args, 4, s2));
    assert(scan(args, 4, s2) == scan(args, 5, s3));
    assert(scan(args, 5, s3) == scan(args, 6, s4));
    assert(scan(args, 6, s4) == Ok::<(ScanState, int), Seq<char>>((s4, 6)));
    assert(s3.ssh_options =~= seq![opt]);
    assert(args.skip(6) =~= Seq::<Seq<char>>::empty());
}

fn starts_with_dash(s: &str) -> (r: bool)
    ensures
        r == (s@.len() > 0 && s@[0] == '-'),
{
    let v = chars_of(s);
    v.len() > 0 && v[0] == '-'
}

} // verus!
