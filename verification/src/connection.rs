use vstd::prelude::*;

use crate::text::{
    chars_of, find_char, lemma_find_char_at, find_from, parse_u16, parse_u16_text, spells, trim, trimmed_bounds,
};

verus! {

/// How the remote client reaches the agent.
#[derive(Debug, PartialEq)]
pub enum ConnectionInfo {
    /// Through a Unix domain socket (the host is a Unix system).
    UnixSocket { path: String, token: String },
    /// Through TCP on the loopback address (the host is Windows).
    Tcp { port: u16, token: String },
}

/// The meaning of a `ConnectionInfo`.
pub enum ConnectionModel {
    UnixSocket { path: Seq<char>, token: Seq<char> },
    Tcp { port: u16, token: Seq<char> },
}

impl View for ConnectionInfo {
    type V = ConnectionModel;

    open spec fn view(&self) -> ConnectionModel {
        match self {
            ConnectionInfo::UnixSocket { path, token } => ConnectionModel::UnixSocket {
                path: path@,
                token: token@,
            },
            ConnectionInfo::Tcp { port, token } => ConnectionModel::Tcp {
                port: *port,
                token: token@,
            },
        }
    }
}

/// The first line of `s`, as `str::lines` gives it (without its `\n`, or
/// `\r\n`), or `None` where `s` is empty.
pub open spec fn first_line(s: Seq<char>) -> Option<Seq<char>> {
    if s.len() == 0 {
        None
    } else {
        let k = find_char(s, '\n');
        let line = s.take(k);
        if k < s.len() && line.len() > 0 && line.last() == '\r' {
            Some(line.drop_last())
        } else {
            Some(line)
        }
    }
}

/// The meaning of the agent port file's content `content`, read from `path`:
/// its first line, trimmed, is `socket|<path>|<token>` or `tcp|<port>|<token>`
/// (the token being everything after the second `|`).
pub open spec fn parse_connection(content: Seq<char>, path: Seq<char>) -> Result<
    ConnectionModel,
    Seq<char>,
> {
    match first_line(content) {
        None => Err("empty port file: "@ + path),
        Some(line) => {
            let t = trim(line);
            let a = find_char(t, '|');
            let rest = t.skip(a + 1);
            let b = find_char(rest, '|');
            if a == t.len() || b == rest.len() {
                Err("invalid connection info in "@ + path + ": '"@ + t + "'"@)
            } else {
                let kind = t.take(a);
                let value = rest.take(b);
                let token = rest.skip(b + 1);
                if kind == "socket"@ {
                    Ok(ConnectionModel::UnixSocket { path: value, token })
                } else if kind == "tcp"@ {
                    match parse_u16(value) {
                        Some(port) => Ok(ConnectionModel::Tcp { port, token }),
                        None => Err("invalid port in "@ + path + ": '"@ + value + "'"@),
                    }
                } else {
                    Err("unknown connection type in "@ + path + ": '"@ + kind + "'"@)
                }
            }
        },
    }
}

/// Whether `s` holds no `c`.
pub open spec fn lacks(s: Seq<char>, c: char) -> bool {
    forall|i: int| 0 <= i < s.len() ==> s[i] != c
}

/// Only the first line of the port file counts: what follows its line break
/// changes nothing.
pub proof fn law_first_line_only(line: Seq<char>, rest: Seq<char>, path: Seq<char>)
    requires
        line.len() > 0,
        lacks(line, '\n'),
        line.last() != '\r',
        rest.len() == 0 || rest[0] == '\n',
    ensures
        parse_connection(line + rest, path) == parse_connection(line, path),
{
    let c = line + rest;
    assert forall|j: int| 0 <= j < line.len() implies #[trigger] c[j] != '\n' by {
        assert(c[j] == line[j]);
    }
    lemma_find_char_at(c, '\n', line.len() as int);
    assert forall|j: int| 0 <= j < line.len() implies #[trigger] line[j] != '\n' by {}
    lemma_find_char_at(line, '\n', line.len() as int);
    assert(c.take(line.len() as int) =~= line);
    assert(line.take(line.len() as int) =~= line);
}

/// The first line, trimmed, splits in three at its first two `|`: the kind,
/// the value, and the token, which keeps any further `|`. A socket line gives
/// its path and token, a TCP line its port and token; anything else is an
/// error naming the bad part.
pub proof fn law_connection_fields(
    line: Seq<char>,
    path: Seq<char>,
    kind: Seq<char>,
    value: Seq<char>,
    token: Seq<char>,
)
    requires
        line.len() > 0,
        lacks(line, '\n'),
        lacks(kind, '|'),
        lacks(value, '|'),
        trim(line) == kind + seq!['|'] + value + seq!['|'] + token,
    ensures
        parse_connection(line, path) == if kind == "socket"@ {
            Ok(ConnectionModel::UnixSocket { path: value, token })
        } else if kind == "tcp"@ {
            match parse_u16(value) {
                Some(port) => Ok(ConnectionModel::Tcp { port, token }),
                None => Err("invalid port in "@ + path + ": '"@ + value + "'"@),
            }
        } else {
            Err("unknown connection type in "@ + path + ": '"@ + kind + "'"@)
        },
{
    assert forall|j: int| 0 <= j < line.len() implies #[trigger] line[j] != '\n' by {}
    lemma_find_char_at(line, '\n', line.len() as int);
    assert(line.take(line.len() as int) =~= line);
    let t = trim(line);
    assert forall|j: int| 0 <= j < kind.len() implies #[trigger] t[j] != '|' by {
        assert(t[j] == kind[j]);
    }
    assert(t[kind.len() as int] == '|');
    lemma_find_char_at(t, '|', kind.len() as int);
    let rest = t.skip(kind.len() as int + 1);
    assert(rest =~= value + seq!['|'] + token);
    assert forall|j: int| 0 <= j < value.len() implies #[trigger] rest[j] != '|' by {
        assert(rest[j] == value[j]);
    }
    assert(rest[value.len() as int] == '|');
    lemma_find_char_at(rest, '|', value.len() as int);
    assert(t.take(kind.len() as int) =~= kind);
    assert(rest.take(value.len() as int) =~= value);
    assert(rest.skip(value.len() as int + 1) =~= token);
}

/// A first line with fewer than two `|` is refused as invalid.
pub proof fn law_connection_too_few_fields(line: Seq<char>, path: Seq<char>)
    requires
        line.len() > 0,
        lacks(line, '\n'),
        lacks(trim(line), '|') || exists|x: Seq<char>, y: Seq<char>|
            #![trigger x + seq!['|'] + y]
            trim(line) == x + seq!['|'] + y && lacks(x, '|') && lacks(y, '|'),
    ensures
        parse_connection(line, path) == Err::<ConnectionModel, Seq<char>>(
            "invalid connection info in "@ + path + ": '"@ + trim(line) + "'"@,
        ),
{
    assert forall|j: int| 0 <= j < line.len() implies #[trigger] line[j] != '\n' by {}
    lemma_find_char_at(line, '\n', line.len() as int);
    assert(line.take(line.len() as int) =~= line);
    let t = trim(line);
    if lacks(t, '|') {
        assert forall|j: int| 0 <= j < t.len() implies #[trigger] t[j] != '|' by {}
        lemma_find_char_at(t, '|', t.len() as int);
    } else {
        let (x, y) = choose|x: Seq<char>, y: Seq<char>|
            #![trigger x + seq!['|'] + y]
            t == x + seq!['|'] + y && lacks(x, '|') && lacks(y, '|');
        assert forall|j: int| 0 <= j < x.len() implies #[trigger] t[j] != '|' by {
            assert(t[j] == x[j]);
        }
        assert(t[x.len() as int] == '|');
        lemma_find_char_at(t, '|', x.len() as int);
        let rest = t.skip(x.len() as int + 1);
        assert(rest =~= y);
        assert forall|j: int| 0 <= j < y.len() implies #[trigger] rest[j] != '|' by {}
        lemma_find_char_at(rest, '|', y.len() as int);
    }
}

/// The meaning of a parse result.
pub open spec fn connection_result_view(r: Result<ConnectionInfo, String>) -> Result<
    ConnectionModel,
    Seq<char>,
> {
    match r {
        Ok(c) => Ok(c@),
        Err(e) => Err(e@),
    }
}

/// `prefix`, then `path`, then `: '`, then `item`, then `'`.
fn located_message(prefix: &str, path: &str, item: &str) -> (r: String)
    ensures
        r@ == prefix@ + path@ + ": '"@ + item@ + "'"@,
{
    String::from_str(prefix).concat(path).concat(": '").concat(item).concat("'")
}

/// Parses the content of the agent port file; `path` names the file in the
/// error messages.
pub fn parse_connection_info(content: &str, path: &str) -> (r: Result<ConnectionInfo, String>)
    ensures
        connection_result_view(r) == parse_connection(content@, path@),
{
    let v = chars_of(content);
    let n = v.len();
    if n == 0 {
        return Err(String::from_str("empty port file: ").concat(path));
    }
    let k = find_from(v.as_slice(), 0, '\n');
    assert(v@.skip(0) =~= v@);
    let line_end = if k < n && k > 0 && v[k - 1] == '\r' {
        k - 1
    } else {
        k
    };
    let line = vstd::slice::slice_subrange(v.as_slice(), 0, line_end);
    proof {
        let fl = v@.take(k as int);
        if k < n && k > 0 && v@[k - 1] == '\r' {
            assert(line@ =~= fl.drop_last());
        } else {
            assert(line@ =~= fl);
        }
        assert(first_line(content@) == Some(line@));
    }
    let (s0, e0) = trimmed_bounds(line);
    let t = vstd::slice::slice_subrange(line, s0, e0);
    let ghost tt = trim(line@);
    assert(t@ == tt);
    let first = content.substring_char(s0, e0);
    assert(first@ =~= tt);
    let tn = t.len();
    let p1 = find_from(t, 0, '|');
    assert(t@.skip(0) =~= t@);
    if p1 == tn {
        return Err(located_message("invalid connection info in ", path, first));
    }
    let p2 = find_from(t, p1 + 1, '|');
    if p2 == tn {
        return Err(located_message("invalid connection info in ", path, first));
    }
    let kind = content.substring_char(s0, s0 + p1);
    let value = content.substring_char(s0 + p1 + 1, s0 + p2);
    let token = content.substring_char(s0 + p2 + 1, e0);
    proof {
        let rest = tt.skip(p1 + 1);
        assert(kind@ =~= tt.take(p1 as int));
        assert(value@ =~= rest.take(p2 - p1 - 1));
        assert(token@ =~= rest.skip(p2 - p1));
    }
    let kind_chars = vstd::slice::slice_subrange(t, 0, p1);
    assert(kind_chars@ =~= kind@);
    if spells(kind_chars, "socket") {
        Ok(ConnectionInfo::UnixSocket { path: String::from_str(value), token: String::from_str(token) })
    } else if spells(kind_chars, "tcp") {
        match parse_u16_text(value) {
            Some(port) => Ok(ConnectionInfo::Tcp { port, token: String::from_str(token) }),
            None => Err(located_message("invalid port in ", path, value)),
        }
    } else {
        Err(located_message("unknown connection type in ", path, kind))
    }
}

} // verus!
