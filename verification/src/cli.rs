//! The command-line grammar shared by the tools: long options (`--name value`,
//! `--name=value`), short options (`-n value`, `-nvalue`, `-n=value`), flags,
//! short flags bundled in one argument (`-pr`, `-pt5`), `--help`/`-h` and,
//! where offered, `--version`/`-V`.  Each option may be
//! given once; values are checked as they are read.

use vstd::prelude::*;
use vstd::string::StrSliceExecFns;

verus! {

/// What an option takes.
#[derive(Clone, Copy, Debug, PartialEq, Eq, Structural)]
pub enum ValueKind {
    /// No value: the option is a switch.
    Flag,
    /// Any text.
    Text,
    /// A decimal number that fits in 64 bits.
    U64,
    /// A decimal number that fits in 32 bits.
    U32,
    /// One of `trace`, `debug`, `info`, `warn`, `error`.
    LogLevel,
    /// One of `never`, `auto`, `always`.
    LogColored,
}

/// One option of a tool: its long name, its short letter if it has one, and
/// what it takes.
pub struct OptionSpec {
    pub long: &'static str,
    pub short: Option<char>,
    pub kind: ValueKind,
}

/// Why the arguments were not accepted (or what was asked instead of a run).
#[derive(Clone, Copy, Debug, PartialEq, Eq, Structural)]
pub enum CliErrorKind {
    /// Help was asked for.
    Help,
    /// The version was asked for.
    Version,
    /// An argument that names no option.
    UnknownArgument,
    /// An option that takes a value came last or before another option.
    MissingValue,
    /// An option given twice.
    Repeated,
    /// A value the option does not accept.
    InvalidValue,
}

/// A refusal with the argument it is about.
#[derive(Debug)]
pub struct CliError {
    pub kind: CliErrorKind,
    pub arg: String,
}

/// Decimal digit.
pub open spec fn is_digit(c: char) -> bool {
    '0' <= c && c <= '9'
}

/// Value of a sequence of decimal digits.
pub open spec fn digits_value(s: Seq<char>) -> int
    decreases s.len(),
{
    if s.len() == 0 {
        0
    } else {
        digits_value(s.drop_last()) * 10 + (s.last() as int - '0' as int)
    }
}

/// Every character a decimal digit.
pub open spec fn all_digits(s: Seq<char>) -> bool {
    forall|i: int| 0 <= i < s.len() ==> is_digit(#[trigger] s[i])
}

/// The digits of a number written with an optional leading `+`.
pub open spec fn unsigned_digits(s: Seq<char>) -> Seq<char> {
    if s.len() > 0 && s[0] == '+' {
        s.skip(1)
    } else {
        s
    }
}

/// An unsigned decimal number no greater than `max`: an optional `+` and at
/// least one digit.
pub open spec fn spec_parse_decimal(s: Seq<char>, max: int) -> Option<int> {
    let d = unsigned_digits(s);
    if d.len() > 0 && all_digits(d) && digits_value(d) <= max {
        Some(digits_value(d))
    } else {
        None
    }
}

proof fn lemma_digits_value_grows(s: Seq<char>, k: int)
    requires
        all_digits(s),
        0 <= k <= s.len(),
    ensures
        0 <= digits_value(s.take(k)) <= digits_value(s),
    decreases s.len() - k,
{
    if k < s.len() {
        lemma_digits_value_grows(s, k + 1);
        assert(s.take(k + 1).drop_last() =~= s.take(k));
        lemma_digits_value_nonneg(s.take(k));
    } else {
        assert(s.take(k) =~= s);
        lemma_digits_value_nonneg(s);
    }
}

proof fn lemma_digits_value_nonneg(s: Seq<char>)
    requires
        all_digits(s),
    ensures
        0 <= digits_value(s),
    decreases s.len(),
{
    if s.len() > 0 {
        assert(all_digits(s.drop_last()));
        lemma_digits_value_nonneg(s.drop_last());
    }
}

/// Reads an unsigned decimal number no greater than `max`.
pub fn parse_decimal(s: &str, max: u64) -> (r: Option<u64>)
    ensures
        match (r, spec_parse_decimal(s@, max as int)) {
            (Some(v), Some(n)) => v == n,
            (None, None) => true,
            _ => false,
        },
{
    let n: usize = s.unicode_len();
    let mut start: usize = 0;
    if n > 0 && s.get_char(0) == '+' {
        start = 1;
    }
    let ghost d = unsigned_digits(s@);
    assert(d =~= s@.skip(start as int));
    if start >= n {
        return None;
    }
    let mut acc: u64 = 0;
    let mut i: usize = start;
    while i < n
        invariant
            n == s@.len(),
            start <= i <= n,
            d == s@.skip(start as int),
            d == unsigned_digits(s@),
            all_digits(d.take(i - start)),
            acc == digits_value(d.take(i - start)),
            acc <= max,
        decreases n - i,
    {
        let c: char = s.get_char(i);
        assert(c == d[i - start]);
        assert(d.take(i - start + 1).drop_last() =~= d.take(i - start));
        if c < '0' || c > '9' {
            assert(!is_digit(d[i - start]));
            assert(!all_digits(d));
            return None;
        }
        let digit: u64 = (c as u32 - '0' as u32) as u64;
        assert(all_digits(d.take(i - start + 1)));
        assert(d.take(i - start + 1).last() == c);
        assert(digits_value(d.take(i - start + 1)) == acc * 10 + digit);
        match acc.checked_mul(10) {
            Some(m) => match m.checked_add(digit) {
                Some(v) => {
                    if v > max {
                        proof {
                            if all_digits(d) {
                                lemma_digits_value_grows(d, i - start + 1);
                            }
                        }
                        return None;
                    }
                    acc = v;
                },
                None => {
                    proof {
                        if all_digits(d) {
                            lemma_digits_value_grows(d, i - start + 1);
                        }
                    }
                    return None;
                },
            },
            None => {
                proof {
                    if all_digits(d) {
                        lemma_digits_value_grows(d, i - start + 1);
                    }
                }
                return None;
            },
        }
        i = i + 1;
    }
    assert(d.take(n - start) =~= d);
    Some(acc)
}


/// A log level name.
pub open spec fn is_level_name(v: Seq<char>) -> bool {
    v == "trace"@ || v == "debug"@ || v == "info"@ || v == "warn"@ || v == "error"@
}

/// A colouring choice name.
pub open spec fn is_colored_name(v: Seq<char>) -> bool {
    v == "never"@ || v == "auto"@ || v == "always"@
}

/// Whether an option of kind `kind` accepts the value `v`.
pub open spec fn value_ok(kind: ValueKind, v: Seq<char>) -> bool {
    match kind {
        ValueKind::Flag => true,
        ValueKind::Text => true,
        ValueKind::U64 => spec_parse_decimal(v, u64::MAX as int) is Some,
        ValueKind::U32 => spec_parse_decimal(v, u32::MAX as int) is Some,
        ValueKind::LogLevel => is_level_name(v),
        ValueKind::LogColored => is_colored_name(v),
    }
}

/// An argument that starts like an option: a dash and at least one more character.
pub open spec fn looks_like_option(t: Seq<char>) -> bool {
    t.len() >= 2 && t[0] == '-'
}

/// An argument that starts with two dashes.
pub open spec fn is_long_token(t: Seq<char>) -> bool {
    t.len() >= 2 && t[0] == '-' && t[1] == '-'
}

/// Position of the first `c` in `s` at or after `i`.
pub open spec fn find_char_from(s: Seq<char>, c: char, i: int) -> Option<int>
    decreases s.len() - i,
{
    if i < 0 || i >= s.len() {
        None
    } else if s[i] == c {
        Some(i)
    } else {
        find_char_from(s, c, i + 1)
    }
}

/// Index of the first option at or after `j` whose long name is `name`.
pub open spec fn find_long(table: Seq<OptionSpec>, name: Seq<char>, j: int) -> Option<int>
    decreases table.len() - j,
{
    if j < 0 || j >= table.len() {
        None
    } else if table[j].long@ == name {
        Some(j)
    } else {
        find_long(table, name, j + 1)
    }
}

/// Index of the first option at or after `j` whose short letter is `c`.
pub open spec fn find_short(table: Seq<OptionSpec>, c: char, j: int) -> Option<int>
    decreases table.len() - j,
{
    if j < 0 || j >= table.len() {
        None
    } else if table[j].short == Some(c) {
        Some(j)
    } else {
        find_short(table, c, j + 1)
    }
}

/// The values given so far, one slot per option; a flag that was given holds
/// the empty text.
pub type Given = Seq<Option<Seq<char>>>;

/// Reading the short options bundled in argument `t` (at position `i`) from
/// its character `k` on: flags may follow one another (`-pr`); an option
/// that takes a value takes the rest of the argument (`-ieth0`, `-i=eth0`)
/// or, when nothing is left, the next argument.  The result tells whether
/// the next argument was taken, and the values given.
pub open spec fn spec_short(
    table: Seq<OptionSpec>,
    args: Seq<Seq<char>>,
    i: int,
    t: Seq<char>,
    k: int,
    vals: Given,
) -> Result<(bool, Given), (CliErrorKind, Seq<char>)>
    decreases t.len() - k,
{
    if k < 1 || k >= t.len() {
        Ok((false, vals))
    } else {
        match find_short(table, t[k], 0) {
            None => Err((CliErrorKind::UnknownArgument, t)),
            Some(j) => if vals[j] is Some {
                Err((CliErrorKind::Repeated, t))
            } else if table[j].kind == ValueKind::Flag {
                spec_short(table, args, i, t, k + 1, vals.update(j, Some(Seq::<char>::empty())))
            } else if k + 1 < t.len() {
                let rest = t.skip(k + 1);
                let v = if rest[0] == '=' {
                    rest.skip(1)
                } else {
                    rest
                };
                if value_ok(table[j].kind, v) {
                    Ok((false, vals.update(j, Some(v))))
                } else {
                    Err((CliErrorKind::InvalidValue, v))
                }
            } else if i + 1 < args.len() && !looks_like_option(args[i + 1]) {
                let v = args[i + 1];
                if value_ok(table[j].kind, v) {
                    Ok((true, vals.update(j, Some(v))))
                } else {
                    Err((CliErrorKind::InvalidValue, v))
                }
            } else {
                Err((CliErrorKind::MissingValue, t))
            },
        }
    }
}

/// The result of reading the arguments from position `i` on, with the values
/// `vals` given before it.
pub open spec fn spec_scan(
    table: Seq<OptionSpec>,
    args: Seq<Seq<char>>,
    version: bool,
    i: int,
    vals: Given,
) -> Result<Given, (CliErrorKind, Seq<char>)>
    decreases args.len() + 1 - i,
{
    if i < 0 || i >= args.len() {
        Ok(vals)
    } else {
        let t = args[i];
        if t == "--help"@ || t == "-h"@ {
            Err((CliErrorKind::Help, t))
        } else if version && (t == "--version"@ || t == "-V"@) {
            Err((CliErrorKind::Version, t))
        } else if is_long_token(t) {
            let body = t.skip(2);
            let eq = find_char_from(body, '=', 0);
            let name = match eq {
                Some(e) => body.take(e),
                None => body,
            };
            match find_long(table, name, 0) {
                None => Err((CliErrorKind::UnknownArgument, t)),
                Some(j) => if vals[j] is Some {
                    Err((CliErrorKind::Repeated, t))
                } else if table[j].kind == ValueKind::Flag {
                    if eq is Some {
                        Err((CliErrorKind::InvalidValue, t))
                    } else {
                        spec_scan(table, args, version, i + 1, vals.update(j, Some(Seq::<char>::empty())))
                    }
                } else {
                    match eq {
                        Some(e) => {
                            let v = body.skip(e + 1);
                            if value_ok(table[j].kind, v) {
                                spec_scan(table, args, version, i + 1, vals.update(j, Some(v)))
                            } else {
                                Err((CliErrorKind::InvalidValue, v))
                            }
                        },
                        None => if i + 1 < args.len() && !looks_like_option(args[i + 1]) {
                            let v = args[i + 1];
                            if value_ok(table[j].kind, v) {
                                spec_scan(table, args, version, i + 2, vals.update(j, Some(v)))
                            } else {
                                Err((CliErrorKind::InvalidValue, v))
                            }
                        } else {
                            Err((CliErrorKind::MissingValue, t))
                        },
                    }
                },
            }
        } else if looks_like_option(t) {
            match spec_short(table, args, i, t, 1, vals) {
                Err(e) => Err(e),
                Ok((took_next, v)) => if took_next {
                    spec_scan(table, args, version, i + 2, v)
                } else {
                    spec_scan(table, args, version, i + 1, v)
                },
            }
        } else {
            Err((CliErrorKind::UnknownArgument, t))
        }
    }
}

/// The texts of the arguments.
pub open spec fn args_view(args: Seq<String>) -> Seq<Seq<char>> {
    args.map_values(|s: String| s@)
}

/// The texts of the given values.
pub open spec fn given_view(vals: Seq<Option<String>>) -> Given {
    vals.map_values(|o: Option<String>| match o {
        Some(s) => Some(s@),
        None => None,
    })
}

/// No option given yet.
pub open spec fn nothing_given(n: nat) -> Given {
    Seq::new(n, |i: int| None::<Seq<char>>)
}

/// Reading a whole command line: the first argument names the program and is
/// skipped.
pub open spec fn spec_scan_command_line(table: Seq<OptionSpec>, args: Seq<Seq<char>>, version: bool) -> Result<Given, (CliErrorKind, Seq<char>)> {
    spec_scan(table, args, version, 1, nothing_given(table.len()))
}

fn str_eq(a: &str, b: &str) -> (r: bool)
    ensures
        r == (a@ == b@),
{
    let x: String = a.to_owned();
    let y: String = b.to_owned();
    x == y
}

fn find_char(s: &str, c: char) -> (r: Option<usize>)
    ensures
        match (r, find_char_from(s@, c, 0)) {
            (Some(k), Some(e)) => k == e && k < s@.len(),
            (None, None) => true,
            _ => false,
        },
{
    let n: usize = s.unicode_len();
    let mut k: usize = 0;
    while k < n
        invariant
            n == s@.len(),
            k <= n,
            find_char_from(s@, c, 0) == find_char_from(s@, c, k as int),
        decreases n - k,
    {
        if s.get_char(k) == c {
            return Some(k);
        }
        k = k + 1;
    }
    None
}

fn find_long_option(table: &Vec<OptionSpec>, name: &str) -> (r: Option<usize>)
    ensures
        match (r, find_long(table@, name@, 0)) {
            (Some(k), Some(j)) => k == j && k < table@.len(),
            (None, None) => true,
            _ => false,
        },
{
    let mut j: usize = 0;
    while j < table.len()
        invariant
            j <= table@.len(),
            find_long(table@, name@, 0) == find_long(table@, name@, j as int),
        decreases table@.len() - j,
    {
        if str_eq(table[j].long, name) {
            return Some(j);
        }
        j = j + 1;
    }
    None
}

fn find_short_option(table: &Vec<OptionSpec>, c: char) -> (r: Option<usize>)
    ensures
        match (r, find_short(table@, c, 0)) {
            (Some(k), Some(j)) => k == j && k < table@.len(),
            (None, None) => true,
            _ => false,
        },
{
    let mut j: usize = 0;
    while j < table.len()
        invariant
            j <= table@.len(),
            find_short(table@, c, 0) == find_short(table@, c, j as int),
        decreases table@.len() - j,
    {
        if table[j].short == Some(c) {
            return Some(j);
        }
        j = j + 1;
    }
    None
}

/// Whether an option of kind `kind` accepts the value `v`.
pub fn check_value(kind: ValueKind, v: &str) -> (r: bool)
    ensures
        r == value_ok(kind, v@),
{
    match kind {
        ValueKind::Flag => true,
        ValueKind::Text => true,
        ValueKind::U64 => parse_decimal(v, u64::MAX).is_some(),
        ValueKind::U32 => parse_decimal(v, u32::MAX as u64).is_some(),
        ValueKind::LogLevel => str_eq(v, "trace") || str_eq(v, "debug") || str_eq(v, "info")
            || str_eq(v, "warn") || str_eq(v, "error"),
        ValueKind::LogColored => str_eq(v, "never") || str_eq(v, "auto") || str_eq(v, "always"),
    }
}

fn refuse(kind: CliErrorKind, arg: &str) -> (r: CliError)
    ensures
        r.kind == kind,
        r.arg@ == arg@,
{
    CliError { kind, arg: arg.to_owned() }
}

fn looks_like_option_exec(t: &str) -> (r: bool)
    ensures
        r == looks_like_option(t@),
{
    t.unicode_len() >= 2 && t.get_char(0) == '-'
}

/// Reads the short options bundled in argument `i`, which starts with a dash
/// and has at least one more character, into `vals`.
fn scan_short(table: &Vec<OptionSpec>, args: &Vec<String>, i: usize, vals: &mut Vec<Option<String>>) -> (r: Result<bool, CliError>)
    requires
        i < args@.len(),
        looks_like_option(args@[i as int]@),
        old(vals)@.len() == table@.len(),
    ensures
        final(vals)@.len() == table@.len(),
        match (r, spec_short(table@, args_view(args@), i as int, args@[i as int]@, 1, given_view(old(vals)@))) {
            (Ok(took), Ok((t2, g))) => took == t2 && given_view(final(vals)@) == g,
            (Err(e), Err((k, a))) => e.kind == k && e.arg@ == a,
            _ => false,
        },
        r matches Ok(took) ==> (took ==> i + 1 < args@.len()),
{
    let ghost av = args_view(args@);
    let ghost g0 = given_view(vals@);
    let t: &str = args[i].as_str();
    assert(t@ == av[i as int]);
    let n: usize = t.unicode_len();
    let m: usize = args.len();
    let mut k: usize = 1;
    while k < n
        invariant
            av == args_view(args@),
            g0 == given_view(old(vals)@),
            m == args@.len(),
            t@ == av[i as int],
            t@ == args@[i as int]@,
            n == t@.len(),
            i < args@.len(),
            1 <= k <= n,
            vals@.len() == table@.len(),
            spec_short(table@, av, i as int, t@, 1, g0) == spec_short(table@, av, i as int, t@, k as int, given_view(vals@)),
        decreases n - k,
    {
        let ghost g = given_view(vals@);
        let c: char = t.get_char(k);
        let j: usize = match find_short_option(table, c) {
            Some(j) => j,
            None => {
                return Err(refuse(CliErrorKind::UnknownArgument, t));
            },
        };
        if vals[j].is_some() {
            return Err(refuse(CliErrorKind::Repeated, t));
        }
        if table[j].kind == ValueKind::Flag {
            vals.set(j, Some(String::new()));
            assert(given_view(vals@) =~= g.update(j as int, Some(Seq::<char>::empty())));
            k = k + 1;
        } else if k + 1 < n {
            let v: &str = if t.get_char(k + 1) == '=' {
                t.substring_char(k + 2, n)
            } else {
                t.substring_char(k + 1, n)
            };
            proof {
                let rest = t@.skip(k + 1);
                if rest[0] == '=' {
                    assert(v@ =~= rest.skip(1));
                } else {
                    assert(v@ =~= rest);
                }
            }
            if !check_value(table[j].kind, v) {
                return Err(refuse(CliErrorKind::InvalidValue, v));
            }
            vals.set(j, Some(v.to_owned()));
            assert(given_view(vals@) =~= g.update(j as int, Some(v@)));
            return Ok(false);
        } else if i + 1 < m && !looks_like_option_exec(args[i + 1].as_str()) {
            let v: &str = args[i + 1].as_str();
            assert(v@ == av[i + 1]);
            if !check_value(table[j].kind, v) {
                return Err(refuse(CliErrorKind::InvalidValue, v));
            }
            vals.set(j, Some(v.to_owned()));
            assert(given_view(vals@) =~= g.update(j as int, Some(v@)));
            return Ok(true);
        } else {
            return Err(refuse(CliErrorKind::MissingValue, t));
        }
    }
    Ok(false)
}

/// Reads a command line (program name first) against the option table.
pub fn scan(table: &Vec<OptionSpec>, args: &Vec<String>, version: bool) -> (r: Result<Vec<Option<String>>, CliError>)
    ensures
        match (r, spec_scan_command_line(table@, args_view(args@), version)) {
            (Ok(v), Ok(g)) => given_view(v@) == g,
            (Err(e), Err((k, a))) => e.kind == k && e.arg@ == a,
            _ => false,
        },
        r matches Ok(v) ==> v@.len() == table@.len(),
{
    let ghost tab = table@;
    let ghost av = args_view(args@);
    let mut vals: Vec<Option<String>> = Vec::new();
    let mut j: usize = 0;
    while j < table.len()
        invariant
            j <= table@.len(),
            vals@.len() == j,
            forall|k: int| 0 <= k < j ==> vals@[k] is None,
        decreases table@.len() - j,
    {
        vals.push(None);
        j = j + 1;
    }
    assert(given_view(vals@) =~= nothing_given(table@.len()));
    let mut i: usize = 1;
    while i < args.len()
        invariant
            av == args_view(args@),
            tab == table@,
            1 <= i,
            given_view(vals@).len() == table@.len(),
            spec_scan_command_line(tab, av, version) == spec_scan(tab, av, version, i as int, given_view(vals@)),
        decreases args@.len() - i,
    {
        let ghost g = given_view(vals@);
        let t: &str = args[i].as_str();
        assert(t@ == av[i as int]);
        let n: usize = t.unicode_len();
        if str_eq(t, "--help") || str_eq(t, "-h") {
            return Err(refuse(CliErrorKind::Help, t));
        }
        if version && (str_eq(t, "--version") || str_eq(t, "-V")) {
            return Err(refuse(CliErrorKind::Version, t));
        }
        if n >= 2 && t.get_char(0) == '-' && t.get_char(1) == '-' {
            let body: &str = t.substring_char(2, n);
            assert(body@ =~= t@.skip(2));
            let eq: Option<usize> = find_char(body, '=');
            let name: &str = match eq {
                Some(e) => body.substring_char(0, e),
                None => body,
            };
            proof {
                if let Some(e) = eq {
                    assert(name@ =~= body@.take(e as int));
                }
            }
            let j: usize = match find_long_option(table, name) {
                Some(j) => j,
                None => {
                    return Err(refuse(CliErrorKind::UnknownArgument, t));
                },
            };
            if vals[j].is_some() {
                return Err(refuse(CliErrorKind::Repeated, t));
            }
            if table[j].kind == ValueKind::Flag {
                if eq.is_some() {
                    return Err(refuse(CliErrorKind::InvalidValue, t));
                }
                vals.set(j, Some(String::new()));
                assert(given_view(vals@) =~= g.update(j as int, Some(Seq::<char>::empty())));
                i = i + 1;
            } else {
                match eq {
                    Some(e) => {
                        let v: &str = body.substring_char(e + 1, body.unicode_len());
                        assert(v@ =~= body@.skip(e + 1));
                        if !check_value(table[j].kind, v) {
                            return Err(refuse(CliErrorKind::InvalidValue, v));
                        }
                        vals.set(j, Some(v.to_owned()));
                        assert(given_view(vals@) =~= g.update(j as int, Some(v@)));
                        i = i + 1;
                    },
                    None => {
                        if i + 1 < args.len() && !looks_like_option_exec(args[i + 1].as_str()) {
                            let v: &str = args[i + 1].as_str();
                            assert(v@ == av[i + 1]);
                            if !check_value(table[j].kind, v) {
                                return Err(refuse(CliErrorKind::InvalidValue, v));
                            }
                            vals.set(j, Some(v.to_owned()));
                            assert(given_view(vals@) =~= g.update(j as int, Some(v@)));
                            i = i + 2;
                        } else {
                            return Err(refuse(CliErrorKind::MissingValue, t));
                        }
                    },
                }
            }
        } else if n >= 2 && t.get_char(0) == '-' {
            match scan_short(table, args, i, &mut vals) {
                Ok(took_next) => {
                    if took_next {
                        i = i + 2;
                    } else {
                        i = i + 1;
                    }
                },
                Err(e) => {
                    return Err(e);
                },
            }
        } else {
            return Err(refuse(CliErrorKind::UnknownArgument, t));
        }
    }
    Ok(vals)
}

/// The text given for an option, or `default`.
pub open spec fn given_text(o: Option<Seq<char>>, default: Seq<char>) -> Seq<char> {
    match o {
        Some(v) => v,
        None => default,
    }
}

/// The number given for an option (when valid and no greater than `max`).
pub open spec fn given_number(o: Option<Seq<char>>, max: int) -> Option<int> {
    match o {
        Some(v) => spec_parse_decimal(v, max),
        None => None,
    }
}

/// The text given for option `j`, or `default`.
pub fn text_value(vals: &Vec<Option<String>>, j: usize, default: &str) -> (r: String)
    requires
        j < vals@.len(),
    ensures
        r@ == given_text(given_view(vals@)[j as int], default@),
{
    match &vals[j] {
        Some(s) => s.clone(),
        None => default.to_owned(),
    }
}

/// Whether flag `j` was given.
pub fn flag_value(vals: &Vec<Option<String>>, j: usize) -> (r: bool)
    requires
        j < vals@.len(),
    ensures
        r == given_view(vals@)[j as int] is Some,
{
    vals[j].is_some()
}

/// The number given for option `j`, if any.
pub fn number_value(vals: &Vec<Option<String>>, j: usize, max: u64) -> (r: Option<u64>)
    requires
        j < vals@.len(),
    ensures
        match (r, given_number(given_view(vals@)[j as int], max as int)) {
            (Some(v), Some(n)) => v == n,
            (None, None) => true,
            _ => false,
        },
{
    match &vals[j] {
        Some(s) => parse_decimal(s.as_str(), max),
        None => None,
    }
}

} // verus!
