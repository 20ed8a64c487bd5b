//! Command line of the router control server.

use crate::cli::{args_view, given_text, given_view, scan, spec_scan_command_line, text_value, CliError, OptionSpec, ValueKind};
use vstd::prelude::*;

verus! {

/// How much the server logs.
#[derive(Clone, Copy, Debug, PartialEq, Eq, Structural)]
pub enum LogLevel {
    Trace,
    Debug,
    Info,
    Warn,
    Error,
}

/// When the server colours its log.
#[derive(Clone, Copy, Debug, PartialEq, Eq, Structural)]
pub enum LogColored {
    Never,
    Auto,
    Always,
}

/// The name of a level, as the command line and the log filter write it.
pub open spec fn level_name(l: LogLevel) -> Seq<char> {
    match l {
        LogLevel::Trace => "trace"@,
        LogLevel::Debug => "debug"@,
        LogLevel::Info => "info"@,
        LogLevel::Warn => "warn"@,
        LogLevel::Error => "error"@,
    }
}

/// The name of a colouring choice, as the command line writes it.
pub open spec fn colored_name(c: LogColored) -> Seq<char> {
    match c {
        LogColored::Never => "never"@,
        LogColored::Auto => "auto"@,
        LogColored::Always => "always"@,
    }
}

impl LogLevel {
    /// The name under which the log filter knows the level.
    pub fn filter_name(&self) -> (r: &'static str)
        ensures
            match *self {
                LogLevel::Trace => r@ == "trace"@,
                LogLevel::Debug => r@ == "debug"@,
                LogLevel::Info => r@ == "info"@,
                LogLevel::Warn => r@ == "warn"@,
                LogLevel::Error => r@ == "error"@,
            },
            r@ == level_name(*self),
    {
        match *self {
            LogLevel::Trace => "trace",
            LogLevel::Debug => "debug",
            LogLevel::Info => "info",
            LogLevel::Warn => "warn",
            LogLevel::Error => "error",
        }
    }
}

impl LogColored {
    /// Whether the log lines are coloured when the output is not a terminal
    /// (first) and when it is one (second).
    pub fn colours(&self) -> (r: (bool, bool))
        ensures
            r == (match *self {
                LogColored::Never => (false, false),
                LogColored::Auto => (false, true),
                LogColored::Always => (true, true),
            }),
    {
        match *self {
            LogColored::Never => (false, false),
            LogColored::Auto => (false, true),
            LogColored::Always => (true, true),
        }
    }
}

/// Options of the control server.
#[derive(Debug)]
pub struct Args {
    /// Interface to load the router on.
    pub iface: String,
    /// Address to listen on.
    pub bind: String,
    pub log_level: LogLevel,
    pub log_colored: LogColored,
}

/// The server's options: `-i/--iface <name>`, `-b/--bind <address>`,
/// `-l/--log-level <level>`, `--log-colored <when>`; it also answers
/// `--version`/`-V`.
pub open spec fn options_table() -> Seq<OptionSpec> {
    seq![
        OptionSpec { long: "iface", short: Some('i'), kind: ValueKind::Text },
        OptionSpec { long: "bind", short: Some('b'), kind: ValueKind::Text },
        OptionSpec { long: "log-level", short: Some('l'), kind: ValueKind::LogLevel },
        OptionSpec { long: "log-colored", short: None, kind: ValueKind::LogColored },
    ]
}

fn options() -> (r: Vec<OptionSpec>)
    ensures
        r@ == options_table(),
{
    let mut t: Vec<OptionSpec> = Vec::new();
    t.push(OptionSpec { long: "iface", short: Some('i'), kind: ValueKind::Text });
    t.push(OptionSpec { long: "bind", short: Some('b'), kind: ValueKind::Text });
    t.push(OptionSpec { long: "log-level", short: Some('l'), kind: ValueKind::LogLevel });
    t.push(OptionSpec { long: "log-colored", short: None, kind: ValueKind::LogColored });
    assert(t@ =~= options_table());
    t
}

/// The level a valid level name stands for; `Trace` when none was given.
pub open spec fn level_of(o: Option<Seq<char>>) -> LogLevel {
    match o {
        None => LogLevel::Trace,
        Some(v) => if v == "debug"@ {
            LogLevel::Debug
        } else if v == "info"@ {
            LogLevel::Info
        } else if v == "warn"@ {
            LogLevel::Warn
        } else if v == "error"@ {
            LogLevel::Error
        } else {
            LogLevel::Trace
        },
    }
}

/// The colouring a valid name stands for; `Always` when none was given.
pub open spec fn colored_of(o: Option<Seq<char>>) -> LogColored {
    match o {
        None => LogColored::Always,
        Some(v) => if v == "never"@ {
            LogColored::Never
        } else if v == "auto"@ {
            LogColored::Auto
        } else {
            LogColored::Always
        },
    }
}

fn eq_text(a: &String, b: &str) -> (r: bool)
    ensures
        r == (a@ == b@),
{
    let y: String = b.to_owned();
    *a == y
}

fn level_value(vals: &Vec<Option<String>>, j: usize) -> (r: LogLevel)
    requires
        j < vals@.len(),
    ensures
        r == level_of(given_view(vals@)[j as int]),
{
    match &vals[j] {
        None => LogLevel::Trace,
        Some(v) => if eq_text(v, "debug") {
            LogLevel::Debug
        } else if eq_text(v, "info") {
            LogLevel::Info
        } else if eq_text(v, "warn") {
            LogLevel::Warn
        } else if eq_text(v, "error") {
            LogLevel::Error
        } else {
            LogLevel::Trace
        },
    }
}

fn colored_value(vals: &Vec<Option<String>>, j: usize) -> (r: LogColored)
    requires
        j < vals@.len(),
    ensures
        r == colored_of(given_view(vals@)[j as int]),
{
    match &vals[j] {
        None => LogColored::Always,
        Some(v) => if eq_text(v, "never") {
            LogColored::Never
        } else if eq_text(v, "auto") {
            LogColored::Auto
        } else {
            LogColored::Always
        },
    }
}

/// Giving a level's name selects that level: the name the log filter uses
/// for a level and the level read from `--log-level` undo each other, and
/// every accepted name is the name of the level it selects.
pub proof fn law_level_names(l: LogLevel, v: Seq<char>)
    ensures
        level_of(Some(level_name(l))) == l,
        crate::cli::is_level_name(v) ==> level_name(level_of(Some(v))) == v,
{
    reveal_strlit("trace");
    reveal_strlit("debug");
    reveal_strlit("info");
    reveal_strlit("warn");
    reveal_strlit("error");
    assert("trace"@[0] == 't' && "debug"@[0] == 'd' && "info"@[0] == 'i' && "warn"@[0] == 'w'
        && "error"@[0] == 'e');
}

/// Giving a colouring choice's name selects that choice, and every accepted
/// name is the name of the choice it selects.
pub proof fn law_colored_names(c: LogColored, v: Seq<char>)
    ensures
        colored_of(Some(colored_name(c))) == c,
        crate::cli::is_colored_name(v) ==> colored_name(colored_of(Some(v))) == v,
{
    reveal_strlit("never");
    reveal_strlit("auto");
    reveal_strlit("always");
    assert("never"@[0] == 'n' && "auto"@.len() == 4 && "always"@.len() == 6 && "always"@[0]
        == 'a');
}

/// Reads the server's command line (program name first).  Defaults:
/// interface `lo`, listening on `127.0.0.1:6707`, level `trace`, colour
/// always.
pub fn parse(args: &Vec<String>) -> (r: Result<Args, CliError>)
    ensures
        match (r, spec_scan_command_line(options_table(), args_view(args@), true)) {
            (Ok(o), Ok(g)) => {
                &&& o.iface@ == given_text(g[0], "lo"@)
                &&& o.bind@ == given_text(g[1], "127.0.0.1:6707"@)
                &&& o.log_level == level_of(g[2])
                &&& o.log_colored == colored_of(g[3])
            },
            (Err(e), Err((k, a))) => e.kind == k && e.arg@ == a,
            _ => false,
        },
{
    let table: Vec<OptionSpec> = options();
    let vals: Vec<Option<String>> = match scan(&table, args, true) {
        Ok(v) => v,
        Err(e) => {
            return Err(e);
        },
    };
    Ok(
        Args {
            iface: text_value(&vals, 0, "lo"),
            bind: text_value(&vals, 1, "127.0.0.1:6707"),
            log_level: level_value(&vals, 2),
            log_colored: colored_value(&vals, 3),
        },
    )
}

} // verus!
