//! Log verbosity: the five names the configuration accepts, read through the
//! `log` crate's level parser.

use vstd::prelude::*;

use std::str::FromStr;

verus! {

/// The verbosity the service logs at; `Off` silences it.
#[derive(Clone, Copy, Debug, PartialEq, Eq, Structural)]
pub enum LogLevel {
    Off,
    Error,
    Warn,
    Info,
    Debug,
    Trace,
}

/// A character with ASCII lower-case letters mapped to upper case.
pub open spec fn ascii_upper(c: char) -> u32 {
    if 'a' <= c && c <= 'z' {
        (c as u32 - 32) as u32
    } else {
        c as u32
    }
}

/// `a` and `b` are equal once ASCII letters are compared without case.
pub open spec fn same_ignoring_ascii_case(a: Seq<char>, b: Seq<char>) -> bool {
    &&& a.len() == b.len()
    &&& forall|i: int| 0 <= i < a.len() ==> ascii_upper(#[trigger] a[i]) == ascii_upper(b[i])
}

/// The canonical name of a level.
pub open spec fn level_name(l: LogLevel) -> Seq<char> {
    match l {
        LogLevel::Off => seq!['O', 'F', 'F'],
        LogLevel::Error => seq!['E', 'R', 'R', 'O', 'R'],
        LogLevel::Warn => seq!['W', 'A', 'R', 'N'],
        LogLevel::Info => seq!['I', 'N', 'F', 'O'],
        LogLevel::Debug => seq!['D', 'E', 'B', 'U', 'G'],
        LogLevel::Trace => seq!['T', 'R', 'A', 'C', 'E'],
    }
}

/// The level whose name `s` spells, in any ASCII case.
pub open spec fn level_named(s: Seq<char>) -> Option<LogLevel> {
    if same_ignoring_ascii_case(s, level_name(LogLevel::Off)) {
        Some(LogLevel::Off)
    } else if same_ignoring_ascii_case(s, level_name(LogLevel::Error)) {
        Some(LogLevel::Error)
    } else if same_ignoring_ascii_case(s, level_name(LogLevel::Warn)) {
        Some(LogLevel::Warn)
    } else if same_ignoring_ascii_case(s, level_name(LogLevel::Info)) {
        Some(LogLevel::Info)
    } else if same_ignoring_ascii_case(s, level_name(LogLevel::Debug)) {
        Some(LogLevel::Debug)
    } else if same_ignoring_ascii_case(s, level_name(LogLevel::Trace)) {
        Some(LogLevel::Trace)
    } else {
        None
    }
}

/// Relies on `log::LevelFilter::from_str`: it compares `s` without ASCII case
/// against "OFF", "ERROR", "WARN", "INFO", "DEBUG", "TRACE" in that order and
/// returns the first level that matches, or an error.
#[verifier::external_body]
fn parse_level(s: &str) -> (r: Option<LogLevel>)
    ensures
        r == level_named(s@),
{
    match log::LevelFilter::from_str(s) {
        Ok(log::LevelFilter::Off) => Some(LogLevel::Off),
        Ok(log::LevelFilter::Error) => Some(LogLevel::Error),
        Ok(log::LevelFilter::Warn) => Some(LogLevel::Warn),
        Ok(log::LevelFilter::Info) => Some(LogLevel::Info),
        Ok(log::LevelFilter::Debug) => Some(LogLevel::Debug),
        Ok(log::LevelFilter::Trace) => Some(LogLevel::Trace),
        Err(_) => None,
    }
}

/// The name under which the service accepts a level in its configuration.
pub open spec fn config_name(l: LogLevel) -> Seq<char> {
    match l {
        LogLevel::Off => seq!['o', 'f', 'f'],
        LogLevel::Error => seq!['e', 'r', 'r', 'o', 'r'],
        LogLevel::Warn => seq!['w', 'a', 'r', 'n'],
        LogLevel::Info => seq!['i', 'n', 'f', 'o'],
        LogLevel::Debug => seq!['d', 'e', 'b', 'u', 'g'],
        LogLevel::Trace => seq!['t', 'r', 'a', 'c', 'e'],
    }
}

/// The level a configured log level selects: one of `error`, `warn`, `info`,
/// `debug`, `trace`, spelled exactly so; any other text selects none.
pub open spec fn configured_level(s: Seq<char>) -> Option<LogLevel> {
    if s == config_name(LogLevel::Error) {
        Some(LogLevel::Error)
    } else if s == config_name(LogLevel::Warn) {
        Some(LogLevel::Warn)
    } else if s == config_name(LogLevel::Info) {
        Some(LogLevel::Info)
    } else if s == config_name(LogLevel::Debug) {
        Some(LogLevel::Debug)
    } else if s == config_name(LogLevel::Trace) {
        Some(LogLevel::Trace)
    } else {
        None
    }
}

/// Each accepted configuration name is read by `level_named` as its own level.
proof fn lemma_config_names_parse(l: LogLevel)
    ensures
        level_named(config_name(l)) == Some(l),
{
    let s = config_name(l);
    let off = level_name(LogLevel::Off);
    let error = level_name(LogLevel::Error);
    let warn = level_name(LogLevel::Warn);
    let info = level_name(LogLevel::Info);
    let debug = level_name(LogLevel::Debug);
    assert(ascii_upper(s[0]) != ascii_upper(error[0]) || l == LogLevel::Error || s.len() != 5);
    assert(ascii_upper(s[0]) != ascii_upper(warn[0]) || l == LogLevel::Warn || s.len() != 4);
    assert(ascii_upper(s[0]) != ascii_upper(info[0]) || l == LogLevel::Info || s.len() != 4);
    assert(ascii_upper(s[0]) != ascii_upper(debug[0]) || l == LogLevel::Debug || s.len() != 5);
    assert(ascii_upper(s[0]) != ascii_upper(off[0]) || l == LogLevel::Off || s.len() != 3);
}

fn config_name_text(l: LogLevel) -> (r: String)
    ensures
        r@ == config_name(l),
{
    match l {
        LogLevel::Off => {
            proof {
                reveal_strlit("off");
            }
            "off".to_owned()
        },
        LogLevel::Error => {
            proof {
                reveal_strlit("error");
            }
            "error".to_owned()
        },
        LogLevel::Warn => {
            proof {
                reveal_strlit("warn");
            }
            "warn".to_owned()
        },
        LogLevel::Info => {
            proof {
                reveal_strlit("info");
            }
            "info".to_owned()
        },
        LogLevel::Debug => {
            proof {
                reveal_strlit("debug");
            }
            "debug".to_owned()
        },
        LogLevel::Trace => {
            proof {
                reveal_strlit("trace");
            }
            "trace".to_owned()
        },
    }
}

/// Reads a configured log level: the level `log` parses it as, kept only when
/// it is not `off` and the text is that level's lower-case name.
pub fn read_level(s: &String) -> (r: Option<LogLevel>)
    ensures
        r == configured_level(s@),
{
    proof {
        lemma_config_names_parse(LogLevel::Error);
        lemma_config_names_parse(LogLevel::Warn);
        lemma_config_names_parse(LogLevel::Info);
        lemma_config_names_parse(LogLevel::Debug);
        lemma_config_names_parse(LogLevel::Trace);
    }
    match parse_level(s.as_str()) {
        None => None,
        Some(LogLevel::Off) => None,
        Some(l) => {
            if *s == config_name_text(l) {
                Some(l)
            } else {
                None
            }
        },
    }
}

} // verus!
