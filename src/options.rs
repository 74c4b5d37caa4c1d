use crate::error::Error;
use crate::levels::{level_filter_from_str, level_named};
use vstd::prelude::*;
use vstd::string::StringExecFns;
use vstd::string::StrSliceExecFns;

verus! {

/// Seconds to wait for a host when no timeout, or a zero timeout, is given.
pub const DEFAULT_TIMEOUT: usize = 5;

/// `s` split at every `sep`: the pieces between separators, in order. A string
/// with no separator is one piece; the empty string is one empty piece.
pub open spec fn split_on(s: Seq<char>, sep: char) -> Seq<Seq<char>>
    decreases s.len(),
{
    if s.len() == 0 {
        seq![Seq::<char>::empty()]
    } else {
        let pieces = split_on(s.drop_last(), sep);
        if s.last() == sep {
            pieces.push(Seq::<char>::empty())
        } else {
            pieces.update(pieces.len() - 1, pieces.last().push(s.last()))
        }
    }
}

/// The views of a list of strings.
pub open spec fn views(v: Seq<String>) -> Seq<Seq<char>> {
    v.map_values(|s: String| s@)
}

/// Splits a comma-separated list of hosts into its entries, empty entries kept.
pub fn split_hosts(hosts: &str) -> (r: Vec<String>)
    ensures
        views(r@) == split_on(hosts@, ','),
{
    let n = hosts.unicode_len();
    let mut pieces: Vec<String> = Vec::new();
    let mut start: usize = 0;
    let mut i: usize = 0;
    assert(hosts@.take(0) =~= Seq::<char>::empty());
    while i < n
        invariant
            n == hosts@.len(),
            start <= i <= n,
            split_on(hosts@.take(i as int), ',') == views(pieces@).push(
                hosts@.subrange(start as int, i as int),
            ),
        decreases n - i,
    {
        let c = hosts.get_char(i);
        assert(hosts@.take(i + 1).drop_last() =~= hosts@.take(i as int));
        if c == ',' {
            let piece = String::from_str(hosts.substring_char(start, i));
            proof {
                assert(views(pieces@.push(piece)) =~= views(pieces@).push(piece@));
            }
            pieces.push(piece);
            start = i + 1;
            assert(hosts@.subrange(start as int, i + 1) =~= Seq::<char>::empty());
        } else {
            assert(hosts@.subrange(start as int, i + 1) =~= hosts@.subrange(
                start as int,
                i as int,
            ).push(c));
        }
        i = i + 1;
    }
    assert(hosts@.take(n as int) =~= hosts@);
    let last = String::from_str(hosts.substring_char(start, n));
    proof {
        assert(views(pieces@.push(last)) =~= views(pieces@).push(last@));
    }
    pieces.push(last);
    pieces
}


/// An ASCII decimal digit.
pub open spec fn is_digit(c: char) -> bool {
    '0' <= c && c <= '9'
}

/// The number that a string of decimal digits spells.
pub open spec fn digits_value(d: Seq<char>) -> nat
    decreases d.len(),
{
    if d.len() == 0 {
        0
    } else {
        digits_value(d.drop_last()) * 10 + ((d.last() as u32) - ('0' as u32)) as nat
    }
}

/// The number that `s` spells in decimal: an optional `+` followed by one or
/// more ASCII digits, nothing else.
pub open spec fn decimal_value(s: Seq<char>) -> Option<nat> {
    let d = if s.len() > 0 && s[0] == '+' {
        s.drop_first()
    } else {
        s
    };
    if d.len() > 0 && forall|i: int| 0 <= i < d.len() ==> is_digit(#[trigger] d[i]) {
        Some(digits_value(d))
    } else {
        None
    }
}

/// The `usize` that `s` spells in decimal, if it spells one that fits.
pub open spec fn usize_of(s: Seq<char>) -> Option<usize> {
    match decimal_value(s) {
        Some(v) => if v <= usize::MAX {
            Some(v as usize)
        } else {
            None
        },
        None => None,
    }
}

/// Relies on `<usize as FromStr>::from_str`: it accepts an optional `+`
/// followed by decimal digits only, and fails on anything else or on a value
/// that does not fit.
#[verifier::external_body]
fn parse_usize(s: &str) -> (r: Option<usize>)
    ensures
        r == usize_of(s@),
{
    s.parse::<usize>().ok()
}

/// A timeout in seconds, with zero standing for the default.
pub open spec fn effective_timeout(t: usize) -> usize {
    if t == 0 {
        DEFAULT_TIMEOUT
    } else {
        t
    }
}

/// The timeout that the text `s` gives: its decimal value, zero meaning the default.
pub open spec fn timeout_of_text(s: Seq<char>) -> Option<usize> {
    match usize_of(s) {
        Some(t) => Some(effective_timeout(t)),
        None => None,
    }
}

/// Reads a timeout in seconds from text; zero gives the default.
pub fn parse_timeout(text: &str) -> (r: core::result::Result<usize, Error>)
    ensures
        timeout_of_text(text@) matches Some(t) ==> r == Ok::<usize, Error>(t),
        timeout_of_text(text@) is None ==> (r matches Err(Error::InvalidTimeout(m)) && m@ == text@),
{
    match parse_usize(text) {
        Some(t) => if t == 0 {
            Ok(DEFAULT_TIMEOUT)
        } else {
            Ok(t)
        },
        None => Err(Error::InvalidTimeout(String::from_str(text))),
    }
}

/// Reads a log level name (`off`, `error`, `warn`, `info`, `debug`, `trace`),
/// in any mix of ASCII case.
pub fn parse_log_level(level: &String) -> (r: core::result::Result<log::LevelFilter, Error>)
    ensures
        level_named(level@) matches Some(f) ==> r == Ok::<log::LevelFilter, Error>(f),
        level_named(level@) is None ==> (r matches Err(Error::InvalidLogLevel(m)) && m@ == level@),
{
    match level_filter_from_str(level.as_str()) {
        Some(f) => Ok(f),
        None => Err(Error::InvalidLogLevel(level.clone())),
    }
}


/// What the command line said, each option as given (`None` where absent).
#[derive(Debug)]
pub struct ArgValues {
    /// `--http-hosts`, a comma-separated list.
    pub http_hosts: Option<String>,
    /// `--tcp-hosts`, a comma-separated list of `host:port`.
    pub tcp_hosts: Option<String>,
    /// `--timeout`, in seconds.
    pub timeout: Option<String>,
    /// `--log-level`.
    pub log_level: Option<String>,
    /// The colour flag as the argument parser reports it.
    pub no_color: bool,
    /// `--listen`, already checked as a socket address by the caller: the
    /// normalised address, the empty string where the option is absent, or
    /// the error that the check gave.
    pub listen: core::result::Result<String, Error>,
}

/// The options of one run, checked.
#[derive(Debug)]
pub struct Options {
    pub http_hosts: Vec<String>,
    pub tcp_hosts: Vec<String>,
    pub timeout: usize,
    pub log_level: log::LevelFilter,
    pub no_color: bool,
    pub listen: String,
}

/// The hosts that a list option names: none where it is absent.
pub open spec fn hosts_of(arg: Option<String>) -> Seq<Seq<char>> {
    match arg {
        Some(h) => split_on(h@, ','),
        None => Seq::<Seq<char>>::empty(),
    }
}

/// The timeout that the `--timeout` option gives, `None` where it is not a number.
pub open spec fn timeout_of_arg(arg: Option<String>) -> Option<usize> {
    match arg {
        Some(t) => timeout_of_text(t@),
        None => Some(DEFAULT_TIMEOUT),
    }
}

/// The name of the log level that the `--log-level` option asks for.
pub open spec fn level_name_of_arg(arg: Option<String>) -> Seq<char> {
    match arg {
        Some(l) => l@,
        None => seq!['i', 'n', 'f', 'o'],
    }
}

impl Options {
    /// Checks the command-line values and builds the options of a run.
    ///
    /// The checks come in this order: the timeout must be a number, the log
    /// level a known name, the listen address valid; and unless an address
    /// to listen on is given, at least one host must be named.
    pub fn from_argc(argc: ArgValues) -> (r: core::result::Result<Options, Error>)
        ensures
            timeout_of_arg(argc.timeout) is None ==> (r matches Err(Error::InvalidTimeout(m))
                && m@ == argc.timeout->0@),
            timeout_of_arg(argc.timeout) is Some && level_named(level_name_of_arg(argc.log_level))
                is None ==> (r matches Err(Error::InvalidLogLevel(m)) && m@ == level_name_of_arg(
                argc.log_level,
            )),
            timeout_of_arg(argc.timeout) is Some && level_named(level_name_of_arg(argc.log_level))
                is Some && argc.listen is Err ==> r == Err::<Options, Error>(argc.listen->Err_0),
            timeout_of_arg(argc.timeout) is Some && level_named(level_name_of_arg(argc.log_level))
                is Some && argc.listen is Ok ==> {
                if hosts_of(argc.http_hosts).len() == 0 && hosts_of(argc.tcp_hosts).len() == 0
                    && argc.listen->Ok_0@.len() == 0 {
                    r == Err::<Options, Error>(Error::NoHostsSupplied)
                } else {
                    r matches Ok(o) && views(o.http_hosts@) == hosts_of(argc.http_hosts) && views(
                        o.tcp_hosts@,
                    ) == hosts_of(argc.tcp_hosts) && Some(o.timeout) == timeout_of_arg(
                        argc.timeout,
                    ) && Some(o.log_level) == level_named(level_name_of_arg(argc.log_level))
                        && o.no_color == argc.no_color && o.listen == argc.listen->Ok_0
                }
            },
    {
        let http_hosts = match &argc.http_hosts {
            Some(hosts) => split_hosts(hosts.as_str()),
            None => Vec::new(),
        };
        let tcp_hosts = match &argc.tcp_hosts {
            Some(hosts) => split_hosts(hosts.as_str()),
            None => Vec::new(),
        };
        assert(views(http_hosts@) =~= hosts_of(argc.http_hosts));
        assert(views(tcp_hosts@) =~= hosts_of(argc.tcp_hosts));
        let timeout = match &argc.timeout {
            None => DEFAULT_TIMEOUT,
            Some(t) => match parse_timeout(t.as_str()) {
                Ok(t) => t,
                Err(e) => {
                    return Err(e);
                },
            },
        };
        let level = match &argc.log_level {
            Some(level) => level.clone(),
            None => {
                proof {
                    reveal_strlit("info");
                }
                String::from_str("info")
            },
        };
        assert(level@ =~= level_name_of_arg(argc.log_level));
        assert(Some(timeout) == timeout_of_arg(argc.timeout));
        let log_level = match parse_log_level(&level) {
            Ok(l) => l,
            Err(e) => {
                return Err(e);
            },
        };
        let listen = match argc.listen {
            Ok(addr) => addr,
            Err(e) => {
                return Err(e);
            },
        };
        if http_hosts.len() == 0 && tcp_hosts.len() == 0 && listen.as_str().is_empty() {
            return Err(Error::NoHostsSupplied);
        }
        Ok(Options { http_hosts, tcp_hosts, timeout, log_level, no_color: argc.no_color, listen })
    }
}

} // verus!
