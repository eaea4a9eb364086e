//! Command-line argument checks run before the server starts: the job
//! binary must exist, addresses must look like IPv4 addresses, and the log
//! level must be one of the known names.

use vstd::prelude::*;
use crate::codec::{chars_to_string, push_str_chars};

verus! {

/// The command-line flags the server is started with.
#[derive(Debug)]
pub struct Args {
    pub flag_version: bool,
    pub flag_ip: Option<String>,
    pub flag_port: u32,
    pub flag_log_level: Option<String>,
    pub flag_max_jobs: usize,
    pub flag_max_workers: usize,
    pub flag_factotum_bin: String,
    pub flag_webhook: String,
    pub flag_no_colour: bool,
    pub flag_consul_name: Option<String>,
    pub flag_consul_ip: Option<String>,
    pub flag_consul_port: Option<u32>,
    pub flag_consul_namespace: Option<String>,
    pub flag_max_stdouterr_size: Option<usize>,
}

// ---------------------------------------------------------------------------
// The job binary
// ---------------------------------------------------------------------------

/// Relies on std's `Path::exists`: the file system decides the answer, so
/// nothing is promised of it.
#[verifier::external_body]
fn path_exists(path: &str) -> bool {
    std::path::Path::new(path).exists()
}

/// The message refusing a missing job binary.
pub open spec fn invalid_bin_message(path: Seq<char>) -> Seq<char> {
    "Invalid path for Factotum binary at: '"@ + path + "'"@
}

/// The verdict on a binary path given whether it exists: a missing binary
/// is refused with the exact message, an existing one accepted.
pub fn factotum_bin_check(factotum_bin: &str, exists: bool) -> (r: Result<(), String>)
    ensures
        exists <==> r is Ok,
        r matches Err(m) ==> m@ == invalid_bin_message(factotum_bin@),
{
    if !exists {
        let mut out: Vec<char> = Vec::new();
        push_str_chars(&mut out, "Invalid path for Factotum binary at: '");
        push_str_chars(&mut out, factotum_bin);
        push_str_chars(&mut out, "'");
        proof {
            assert(out@ =~= invalid_bin_message(factotum_bin@));
        }
        return Err(chars_to_string(&out));
    }
    Ok(())
}

/// Checks that the job binary exists on disk; a missing one is refused
/// with the exact message.
pub fn check_factotum_bin_arg(factotum_bin: &str) -> (r: Result<(), String>)
    ensures
        r matches Err(m) ==> m@ == invalid_bin_message(factotum_bin@),
{
    let exists: bool = path_exists(factotum_bin);
    factotum_bin_check(factotum_bin, exists)
}

// ---------------------------------------------------------------------------
// IP addresses
// ---------------------------------------------------------------------------

/// Whether the dotted-quad address pattern matches somewhere in the text;
/// left uninterpreted and pinned to the wrapper below.
pub uninterp spec fn matches_ip_pattern(s: Seq<char>) -> bool;

/// Relies on regex's `Regex::is_match` with a fixed IPv4 dotted-quad
/// pattern: the answer depends on the text alone.
#[verifier::external_body]
pub fn is_a_valid_ip(text: &str) -> (r: bool)
    ensures
        r == matches_ip_pattern(text@),
{
    let pattern =
        r"\b(?:(?:25[0-5]|2[0-4][0-9]|1[0-9][0-9]|[1-9]?[0-9])\.){3}(?:25[0-5]|2[0-4][0-9]|1[0-9][0-9]|[1-9]?[0-9])\b";
    match regex::Regex::new(pattern) {
        Ok(re) => re.is_match(text),
        Err(_) => false,
    }
}

/// The message refusing a malformed address.
pub open spec fn invalid_ip_message(ip: Seq<char>) -> Seq<char> {
    "Invalid IP address: ["@ + ip + "] - Regex mismatch"@
}

/// Checks an optional address: absent passes, present must match the
/// address pattern or is refused with the exact message.
pub fn check_ip_arg(wrapped_ip: &Option<String>) -> (r: Result<(), String>)
    ensures
        wrapped_ip is None ==> r is Ok,
        wrapped_ip matches Some(ref ip) ==> {
            &&& matches_ip_pattern(ip@) <==> r is Ok
            &&& (r matches Err(m) ==> m@ == invalid_ip_message(ip@))
        },
{
    match wrapped_ip {
        Some(ip) => {
            if !is_a_valid_ip(ip.as_str()) {
                let mut out: Vec<char> = Vec::new();
                push_str_chars(&mut out, "Invalid IP address: [");
                push_str_chars(&mut out, ip.as_str());
                push_str_chars(&mut out, "] - Regex mismatch");
                proof {
                    assert(out@ =~= invalid_ip_message(ip@));
                }
                return Err(chars_to_string(&out));
            }
            Ok(())
        },
        None => Ok(()),
    }
}

// ---------------------------------------------------------------------------
// Log levels
// ---------------------------------------------------------------------------

/// The log levels the server knows.
#[derive(Clone, Copy, Debug, PartialEq, Eq, Structural)]
pub enum LogLevel {
    Off,
    Error,
    Warn,
    Info,
    Debug,
    Trace,
}

/// The lower-case form of an ASCII letter; anything else is unchanged.
pub open spec fn lower_char(c: char) -> char {
    if c == 'A' {
        'a'
    } else if c == 'B' {
        'b'
    } else if c == 'C' {
        'c'
    } else if c == 'D' {
        'd'
    } else if c == 'E' {
        'e'
    } else if c == 'F' {
        'f'
    } else if c == 'G' {
        'g'
    } else if c == 'H' {
        'h'
    } else if c == 'I' {
        'i'
    } else if c == 'J' {
        'j'
    } else if c == 'K' {
        'k'
    } else if c == 'L' {
        'l'
    } else if c == 'M' {
        'm'
    } else if c == 'N' {
        'n'
    } else if c == 'O' {
        'o'
    } else if c == 'P' {
        'p'
    } else if c == 'Q' {
        'q'
    } else if c == 'R' {
        'r'
    } else if c == 'S' {
        's'
    } else if c == 'T' {
        't'
    } else if c == 'U' {
        'u'
    } else if c == 'V' {
        'v'
    } else if c == 'W' {
        'w'
    } else if c == 'X' {
        'x'
    } else if c == 'Y' {
        'y'
    } else if c == 'Z' {
        'z'
    } else {
        c
    }
}

/// Whether `s` spells `keyword` up to ASCII case.
pub open spec fn spells_keyword(s: Seq<char>, keyword: Seq<char>) -> bool {
    s.len() == keyword.len() && forall|i: int|
        0 <= i < s.len() ==> lower_char(#[trigger] s[i]) == keyword[i]
}

/// The level a name selects, up to ASCII case.
pub open spec fn log_level_of(s: Seq<char>) -> Option<LogLevel> {
    if spells_keyword(s, "off"@) {
        Some(LogLevel::Off)
    } else if spells_keyword(s, "error"@) {
        Some(LogLevel::Error)
    } else if spells_keyword(s, "warn"@) {
        Some(LogLevel::Warn)
    } else if spells_keyword(s, "info"@) {
        Some(LogLevel::Info)
    } else if spells_keyword(s, "debug"@) {
        Some(LogLevel::Debug)
    } else if spells_keyword(s, "trace"@) {
        Some(LogLevel::Trace)
    } else {
        None
    }
}

fn lower_char_exec(c: char) -> (r: char)
    ensures
        r == lower_char(c),
{
    if c == 'A' {
        'a'
    } else if c == 'B' {
        'b'
    } else if c == 'C' {
        'c'
    } else if c == 'D' {
        'd'
    } else if c == 'E' {
        'e'
    } else if c == 'F' {
        'f'
    } else if c == 'G' {
        'g'
    } else if c == 'H' {
        'h'
    } else if c == 'I' {
        'i'
    } else if c == 'J' {
        'j'
    } else if c == 'K' {
        'k'
    } else if c == 'L' {
        'l'
    } else if c == 'M' {
        'm'
    } else if c == 'N' {
        'n'
    } else if c == 'O' {
        'o'
    } else if c == 'P' {
        'p'
    } else if c == 'Q' {
        'q'
    } else if c == 'R' {
        'r'
    } else if c == 'S' {
        's'
    } else if c == 'T' {
        't'
    } else if c == 'U' {
        'u'
    } else if c == 'V' {
        'v'
    } else if c == 'W' {
        'w'
    } else if c == 'X' {
        'x'
    } else if c == 'Y' {
        'y'
    } else if c == 'Z' {
        'z'
    } else {
        c
    }
}

fn spells_keyword_exec(s: &str, keyword: &str) -> (r: bool)
    ensures
        r == spells_keyword(s@, keyword@),
{
    let n: usize = s.unicode_len();
    if keyword.unicode_len() != n {
        return false;
    }
    let mut k: usize = 0;
    while k < n
        invariant
            n == s@.len(),
            n == keyword@.len(),
            k <= n,
            forall|i: int| 0 <= i < k as int ==> lower_char(#[trigger] s@[i]) == keyword@[i],
        decreases n - k,
    {
        if lower_char_exec(s.get_char(k)) != keyword.get_char(k) {
            return false;
        }
        k = k + 1;
    }
    true
}

/// The message refusing an unknown log level name.
pub open spec fn unknown_level_message(s: Seq<char>) -> Seq<char> {
    "Unknown log level: '"@ + s + "'\nPlease select a valid log level."@
}

/// Maps a level name to the level it selects, up to ASCII case; an absent
/// name selects `Warn`, and an unknown one is refused with the exact
/// message.
pub fn get_log_level(level_input: &Option<String>) -> (r: Result<LogLevel, String>)
    ensures
        level_input is None ==> r == Ok::<LogLevel, String>(LogLevel::Warn),
        level_input matches Some(ref s) ==> match log_level_of(s@) {
            Some(level) => r == Ok::<LogLevel, String>(level),
            None => r matches Err(m) && m@ == unknown_level_message(s@),
        },
{
    let log_level: &String = match level_input {
        Some(input) => input,
        None => {
            return Ok(LogLevel::Warn);
        },
    };
    if spells_keyword_exec(log_level.as_str(), "off") {
        Ok(LogLevel::Off)
    } else if spells_keyword_exec(log_level.as_str(), "error") {
        Ok(LogLevel::Error)
    } else if spells_keyword_exec(log_level.as_str(), "warn") {
        Ok(LogLevel::Warn)
    } else if spells_keyword_exec(log_level.as_str(), "info") {
        Ok(LogLevel::Info)
    } else if spells_keyword_exec(log_level.as_str(), "debug") {
        Ok(LogLevel::Debug)
    } else if spells_keyword_exec(log_level.as_str(), "trace") {
        Ok(LogLevel::Trace)
    } else {
        let mut out: Vec<char> = Vec::new();
        push_str_chars(&mut out, "Unknown log level: '");
        push_str_chars(&mut out, log_level.as_str());
        push_str_chars(&mut out, "'\nPlease select a valid log level.");
        proof {
            assert(out@ =~= unknown_level_message(log_level@));
        }
        Err(chars_to_string(&out))
    }
}

// ---------------------------------------------------------------------------
// Logger initialisation
// ---------------------------------------------------------------------------

/// Relies on log4rs's `init_config` with one console appender: it installs
/// the logger as a process-wide side effect, which can fail if a logger is
/// already set, so nothing is promised of the result.
#[verifier::external_body]
fn install_console_logger(filter: log::LevelFilter) -> Result<(), String> {
    let stdout = log4rs::append::console::ConsoleAppender::builder().encoder(
        Box::new(log4rs::encode::pattern::PatternEncoder::new("{d} {l:>5} - {m}{n}")),
    ).build();
    let root = log4rs::config::Root::builder().appender("stdout").build(filter);
    let appender = log4rs::config::Appender::builder().build("stdout", Box::new(stdout));
    match log4rs::config::Config::builder().appender(appender).build(root) {
        Ok(config) => match log4rs::init_config(config) {
            Ok(_) => Ok(()),
            Err(e) => Err(e.to_string()),
        },
        Err(e) => Err(e.to_string()),
    }
}

#[verifier::external_type_specification]
#[verifier::external_body]
pub struct ExLevelFilter(log::LevelFilter);

/// Relies on log's `LevelFilter` being a plain six-valued enum: this maps
/// the library's levels onto it one for one.
#[verifier::external_body]
fn to_level_filter(level: &LogLevel) -> log::LevelFilter {
    match level {
        LogLevel::Off => log::LevelFilter::Off,
        LogLevel::Error => log::LevelFilter::Error,
        LogLevel::Warn => log::LevelFilter::Warn,
        LogLevel::Info => log::LevelFilter::Info,
        LogLevel::Debug => log::LevelFilter::Debug,
        LogLevel::Trace => log::LevelFilter::Trace,
    }
}

/// Reads the requested log level and installs the console logger at it; an
/// unknown level name is refused with the exact message, and a failure to
/// install is reported with its cause.
pub fn init_logger(level_input: &Option<String>) -> (r: Result<(), String>)
    ensures
        level_input matches Some(ref s) ==> log_level_of(s@) is None ==> (r matches Err(m) && m@
            == unknown_level_message(s@)),
        r matches Err(m) ==> {
            ||| (level_input matches Some(ref s) && log_level_of(s@) is None && m@
                == unknown_level_message(s@))
            ||| (exists|t: Seq<char>| m@ == "Error initialising log config: "@ + t)
        },
{
    let log_level: LogLevel = match get_log_level(level_input) {
        Ok(level) => level,
        Err(e) => {
            return Err(e);
        },
    };
    match install_console_logger(to_level_filter(&log_level)) {
        Ok(_) => Ok(()),
        Err(e) => {
            let mut out: Vec<char> = Vec::new();
            push_str_chars(&mut out, "Error initialising log config: ");
            push_str_chars(&mut out, e.as_str());
            proof {
                assert(out@ =~= "Error initialising log config: "@ + e@);
            }
            Err(chars_to_string(&out))
        },
    }
}

/// Runs all the start-up checks in order — job binary, bind address,
/// store address — and then installs the logger at the requested level.
/// Success means every check passed; a failure carries the first failing
/// check's exact message.
pub fn check_and_init_logger(args: &Args) -> (r: Result<(), String>)
    ensures
        r matches Ok(u) ==> {
            &&& (args.flag_ip matches Some(ref ip) ==> matches_ip_pattern(ip@))
            &&& (args.flag_consul_ip matches Some(ref ip) ==> matches_ip_pattern(ip@))
            &&& (args.flag_log_level matches Some(ref s) ==> log_level_of(s@) is Some)
        },
        r matches Err(m) ==> {
            ||| m@ == invalid_bin_message(args.flag_factotum_bin@)
            ||| (args.flag_ip matches Some(ref ip) && m@ == invalid_ip_message(ip@)
                && !matches_ip_pattern(ip@))
            ||| (args.flag_consul_ip matches Some(ref ip) && m@ == invalid_ip_message(ip@)
                && !matches_ip_pattern(ip@))
            ||| (args.flag_log_level matches Some(ref s) && log_level_of(s@) is None && m@
                == unknown_level_message(s@))
            ||| (exists|t: Seq<char>| m@ == "Error initialising log config: "@ + t)
        },
{
    match check_factotum_bin_arg(args.flag_factotum_bin.as_str()) {
        Ok(_) => {},
        Err(e) => {
            return Err(e);
        },
    };
    match check_ip_arg(&args.flag_ip) {
        Ok(_) => {},
        Err(e) => {
            return Err(e);
        },
    };
    match check_ip_arg(&args.flag_consul_ip) {
        Ok(_) => {},
        Err(e) => {
            return Err(e);
        },
    };
    match init_logger(&args.flag_log_level) {
        Ok(_) => {},
        Err(e) => {
            return Err(e);
        },
    };
    Ok(())
}

} // verus!
