//! The command line's input handling: splitting a typed line into
//! arguments (honoring single quotes, double quotes, `/regex/` spans and
//! escaped quotes), and recognizing the built-in commands.

use vstd::prelude::*;
use vstd::string::StringExecFns;
use crate::strutil::{char_count, chars_vec, string_push};

verus! {

/// The tokenizer's running state: finished arguments, the argument being
/// built, and which delimited span we are inside.
pub ghost struct ParseState {
    pub args: Seq<Seq<char>>,
    pub current: Seq<char>,
    pub in_single: bool,
    pub in_double: bool,
    pub in_regex: bool,
}

pub open spec fn parse_init() -> ParseState {
    ParseState {
        args: Seq::empty(),
        current: Seq::empty(),
        in_single: false,
        in_double: false,
        in_regex: false,
    }
}

/// Close the argument being built, dropping it when empty.
pub open spec fn flush_arg(st: ParseState) -> Seq<Seq<char>> {
    if st.current.len() > 0 {
        st.args.push(st.current)
    } else {
        st.args
    }
}

/// The arguments produced by scanning `s` from position `i` onward in
/// state `st`.  A space outside any span ends an argument; `/`, `'` and
/// `"` toggle their spans and are kept; a backslash before the active
/// quote escapes it.
pub open spec fn parse_from(s: Seq<char>, i: int, st: ParseState) -> Seq<Seq<char>>
    decreases s.len() - i,
        when 0 <= i <= s.len()
{
    if i >= s.len() {
        flush_arg(st)
    } else {
        let c = s[i];
        if c == ' ' && !st.in_single && !st.in_double && !st.in_regex {
            parse_from(
                s,
                i + 1,
                ParseState { args: flush_arg(st), current: Seq::empty(), ..st },
            )
        } else if c == '/' && !st.in_single && !st.in_double {
            parse_from(
                s,
                i + 1,
                ParseState { in_regex: !st.in_regex, current: st.current.push(c), ..st },
            )
        } else if c == '\'' && !st.in_double && !st.in_regex {
            parse_from(
                s,
                i + 1,
                ParseState { in_single: !st.in_single, current: st.current.push(c), ..st },
            )
        } else if c == '"' && !st.in_single && !st.in_regex {
            parse_from(
                s,
                i + 1,
                ParseState { in_double: !st.in_double, current: st.current.push(c), ..st },
            )
        } else if c == '\\' && st.in_double && i + 1 < s.len() && s[i + 1] == '"' {
            parse_from(s, i + 2, ParseState { current: st.current.push('"'), ..st })
        } else if c == '\\' && st.in_single && i + 1 < s.len() && s[i + 1] == '\'' {
            parse_from(s, i + 2, ParseState { current: st.current.push('\''), ..st })
        } else {
            parse_from(s, i + 1, ParseState { current: st.current.push(c), ..st })
        }
    }
}

/// The arguments of a typed command line.
pub open spec fn parse_command_line_spec(s: Seq<char>) -> Seq<Seq<char>> {
    parse_from(s, 0, parse_init())
}

/// The model of a produced argument vector.
pub open spec fn args_model(v: Seq<String>) -> Seq<Seq<char>> {
    v.map_values(|a: String| a@)
}

/// Splits a typed command line into its arguments.
pub fn parse_command_line(line: &str) -> (r: Vec<String>)
    ensures
        args_model(r@) == parse_command_line_spec(line@),
{
    let cs = chars_vec(line);
    let ghost s = line@;
    let n = cs.len();
    let mut args: Vec<String> = Vec::new();
    let mut current = String::new();
    let mut in_single = false;
    let mut in_double = false;
    let mut in_regex = false;
    let mut i: usize = 0;
    proof {
        assert(args_model(args@) =~= Seq::<Seq<char>>::empty());
        assert(ParseState {
            args: args_model(args@),
            current: current@,
            in_single,
            in_double,
            in_regex,
        } == parse_init());
    }
    while i < n
        invariant
            n == s.len(),
            cs@ == s,
            i <= n,
            parse_command_line_spec(s) == parse_from(
                s,
                i as int,
                ParseState {
                    args: args_model(args@),
                    current: current@,
                    in_single,
                    in_double,
                    in_regex,
                },
            ),
        decreases n - i,
    {
        let ghost st = ParseState {
            args: args_model(args@),
            current: current@,
            in_single,
            in_double,
            in_regex,
        };
        let ghost i0 = i as int;
        let c = cs[i];
        if c == ' ' && !in_single && !in_double && !in_regex {
            if char_count(current.as_str()) > 0 {
                let mut finished = String::new();
                core::mem::swap(&mut current, &mut finished);
                args.push(finished);
                proof {
                    assert(args_model(args@) =~= flush_arg(st));
                    assert(current@ =~= Seq::<char>::empty());
                }
            } else {
                proof {
                    assert(current@ =~= Seq::<char>::empty());
                    assert(args_model(args@) =~= flush_arg(st));
                }
            }
            i = i + 1;
        } else if c == '/' && !in_single && !in_double {
            in_regex = !in_regex;
            string_push(&mut current, c);
            i = i + 1;
        } else if c == '\'' && !in_double && !in_regex {
            in_single = !in_single;
            string_push(&mut current, c);
            i = i + 1;
        } else if c == '"' && !in_single && !in_regex {
            in_double = !in_double;
            string_push(&mut current, c);
            i = i + 1;
        } else if c == '\\' && in_double && i + 1 < n && cs[i + 1] == '"' {
            string_push(&mut current, '"');
            i = i + 2;
        } else if c == '\\' && in_single && i + 1 < n && cs[i + 1] == '\'' {
            string_push(&mut current, '\'');
            i = i + 2;
        } else {
            string_push(&mut current, c);
            i = i + 1;
        }
        proof {
            assert(parse_from(s, i0, st) == parse_from(
                s,
                i as int,
                ParseState {
                    args: args_model(args@),
                    current: current@,
                    in_single,
                    in_double,
                    in_regex,
                },
            ));
        }
    }
    if char_count(current.as_str()) > 0 {
        let ghost st = ParseState {
            args: args_model(args@),
            current: current@,
            in_single,
            in_double,
            in_regex,
        };
        args.push(current);
        proof {
            assert(args_model(args@) =~= flush_arg(st));
        }
    }
    args
}

/// The built-in commands a typed line can invoke.
#[derive(PartialEq, Eq, Structural, Clone, Copy, Debug)]
pub enum CommandKind {
    Quit,
    Find,
    Open,
    Save,
    Unknown,
}

/// Which built-in command the first argument names.
pub open spec fn command_kind_spec(arg: Seq<char>) -> CommandKind {
    if arg == ":quit"@ {
        CommandKind::Quit
    } else if arg == ":find"@ {
        CommandKind::Find
    } else if arg == ":open"@ {
        CommandKind::Open
    } else if arg == ":save"@ {
        CommandKind::Save
    } else {
        CommandKind::Unknown
    }
}

/// Recognizes the built-in command named by the first argument.
pub fn recognize_command(arg: &String) -> (k: CommandKind)
    ensures
        k == command_kind_spec(arg@),
{
    if *arg == String::from_str(":quit") {
        CommandKind::Quit
    } else if *arg == String::from_str(":find") {
        CommandKind::Find
    } else if *arg == String::from_str(":open") {
        CommandKind::Open
    } else if *arg == String::from_str(":save") {
        CommandKind::Save
    } else {
        CommandKind::Unknown
    }
}

/// Whether a typed line is a `:` command (anything else is handed to the
/// shell by the surrounding editor).
pub fn is_colon_command(line: &str) -> (r: bool)
    ensures
        r == (line@.len() > 0 && line@[0] == ':'),
{
    let cs = chars_vec(line);
    if cs.len() > 0 {
        cs[0] == ':'
    } else {
        false
    }
}

} // verus!
