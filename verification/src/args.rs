//! Command-line argument parsing: the flags the process accepts, their
//! defaults, and a parser over the raw argument strings. The first
//! argument is the program name and carries no meaning.
use vstd::prelude::*;
use vstd::string::*;

use crate::strutil::{all_digits, dec_val, parse_u16, str_eq};

verus! {

/// The parsed command line.
#[derive(Debug)]
pub struct Args {
    pub rpc_url: String,
    pub rpc_secret: Option<String>,
    pub transport: String,
    pub http_port: u16,
    pub http_auth_token: Option<String>,
    pub log_level: String,
    pub lazy: bool,
    pub no_verify_ssl: bool,
    pub verify_ssl: bool,
}

/// The model of a parsed command line.
pub struct ArgsV {
    pub rpc_url: Seq<char>,
    pub rpc_secret: Option<Seq<char>>,
    pub transport: Seq<char>,
    pub http_port: u16,
    pub http_auth_token: Option<Seq<char>>,
    pub log_level: Seq<char>,
    pub lazy: bool,
    pub no_verify_ssl: bool,
    pub verify_ssl: bool,
}

/// The view of an optional owned string.
pub open spec fn opt_view(o: Option<String>) -> Option<Seq<char>> {
    match o {
        Some(s) => Some(s@),
        None => None,
    }
}

impl View for Args {
    type V = ArgsV;

    open spec fn view(&self) -> ArgsV {
        ArgsV {
            rpc_url: self.rpc_url@,
            rpc_secret: opt_view(self.rpc_secret),
            transport: self.transport@,
            http_port: self.http_port,
            http_auth_token: opt_view(self.http_auth_token),
            log_level: self.log_level@,
            lazy: self.lazy,
            no_verify_ssl: self.no_verify_ssl,
            verify_ssl: self.verify_ssl,
        }
    }
}

/// Why parsing stopped without a result.
#[derive(Debug)]
pub enum ArgsError {
    /// `--version` was given; the caller prints the version and exits.
    DisplayVersion,
    /// `--help` was given; the caller prints usage and exits.
    DisplayHelp,
    /// An argument no flag accepts.
    UnknownFlag(String),
    /// A flag that takes a value stood last, without one.
    MissingValue(String),
    /// A value of the wrong shape, such as a port that is not a number.
    InvalidValue(String),
}

/// The model of a parsing failure.
pub enum ArgsErrorV {
    DisplayVersion,
    DisplayHelp,
    UnknownFlag(Seq<char>),
    MissingValue(Seq<char>),
    InvalidValue(Seq<char>),
}

impl View for ArgsError {
    type V = ArgsErrorV;

    open spec fn view(&self) -> ArgsErrorV {
        match self {
            ArgsError::DisplayVersion => ArgsErrorV::DisplayVersion,
            ArgsError::DisplayHelp => ArgsErrorV::DisplayHelp,
            ArgsError::UnknownFlag(s) => ArgsErrorV::UnknownFlag(s@),
            ArgsError::MissingValue(s) => ArgsErrorV::MissingValue(s@),
            ArgsError::InvalidValue(s) => ArgsErrorV::InvalidValue(s@),
        }
    }
}

/// True when a port value is acceptable: all digits and within `u16`.
pub open spec fn valid_port(s: Seq<char>) -> bool {
    s.len() > 0 && all_digits(s) && dec_val(s) <= u16::MAX
}

/// What the rest of an argument list does to an accumulated result:
/// each flag overrides its field, value flags consume the following
/// argument, and the walk stops at `--version`, `--help`, an unknown
/// flag, a missing value, or a malformed port.
pub open spec fn parse_from(acc: ArgsV, argv: Seq<Seq<char>>) -> Result<ArgsV, ArgsErrorV>
    decreases argv.len(),
{
    if argv.len() == 0 {
        Ok(acc)
    } else {
        let a = argv[0];
        if a == "-u"@ || a == "--rpc-url"@ {
            if argv.len() < 2 {
                Err(ArgsErrorV::MissingValue(a))
            } else {
                parse_from(ArgsV { rpc_url: argv[1], ..acc }, argv.skip(2))
            }
        } else if a == "-s"@ || a == "--rpc-secret"@ {
            if argv.len() < 2 {
                Err(ArgsErrorV::MissingValue(a))
            } else {
                parse_from(ArgsV { rpc_secret: Some(argv[1]), ..acc }, argv.skip(2))
            }
        } else if a == "-t"@ || a == "--transport"@ {
            if argv.len() < 2 {
                Err(ArgsErrorV::MissingValue(a))
            } else {
                parse_from(ArgsV { transport: argv[1], ..acc }, argv.skip(2))
            }
        } else if a == "--http-port"@ {
            if argv.len() < 2 {
                Err(ArgsErrorV::MissingValue(a))
            } else if valid_port(argv[1]) {
                parse_from(ArgsV { http_port: dec_val(argv[1]) as u16, ..acc }, argv.skip(2))
            } else {
                Err(ArgsErrorV::InvalidValue(argv[1]))
            }
        } else if a == "--http-auth-token"@ {
            if argv.len() < 2 {
                Err(ArgsErrorV::MissingValue(a))
            } else {
                parse_from(ArgsV { http_auth_token: Some(argv[1]), ..acc }, argv.skip(2))
            }
        } else if a == "-L"@ || a == "--log-level"@ {
            if argv.len() < 2 {
                Err(ArgsErrorV::MissingValue(a))
            } else {
                parse_from(ArgsV { log_level: argv[1], ..acc }, argv.skip(2))
            }
        } else if a == "-l"@ || a == "--lazy"@ {
            parse_from(ArgsV { lazy: true, ..acc }, argv.skip(1))
        } else if a == "--no-verify-ssl"@ {
            parse_from(ArgsV { no_verify_ssl: true, ..acc }, argv.skip(1))
        } else if a == "--verify-ssl"@ {
            parse_from(ArgsV { verify_ssl: true, ..acc }, argv.skip(1))
        } else if a == "-V"@ || a == "--version"@ {
            Err(ArgsErrorV::DisplayVersion)
        } else if a == "-h"@ || a == "--help"@ {
            Err(ArgsErrorV::DisplayHelp)
        } else {
            Err(ArgsErrorV::UnknownFlag(a))
        }
    }
}

/// The views of a list of argument strings.
pub open spec fn argv_views(argv: Seq<&str>) -> Seq<Seq<char>> {
    Seq::new(argv.len(), |i: int| argv[i]@)
}

/// The defaults before any flag: the local endpoint, stdio transport,
/// port 3000, log level "info".
pub open spec fn default_args() -> ArgsV {
    ArgsV {
        rpc_url: "http://localhost:6800/jsonrpc"@,
        rpc_secret: None,
        transport: "stdio"@,
        http_port: 3000,
        http_auth_token: None,
        log_level: "info"@,
        lazy: false,
        no_verify_ssl: false,
        verify_ssl: false,
    }
}

fn make_default_args() -> (r: Args)
    ensures
        r@ == default_args(),
{
    Args {
        rpc_url: String::from_str("http://localhost:6800/jsonrpc"),
        rpc_secret: None,
        transport: String::from_str("stdio"),
        http_port: 3000,
        http_auth_token: None,
        log_level: String::from_str("info"),
        lazy: false,
        no_verify_ssl: false,
        verify_ssl: false,
    }
}

fn parse_rest(acc: Args, argv: &Vec<&str>, i: usize) -> (r: Result<Args, ArgsError>)
    requires
        i <= argv@.len(),
    ensures
        match r {
            Ok(a) => parse_from(acc@, argv_views(argv@).skip(i as int)) == Ok::<ArgsV, ArgsErrorV>(a@),
            Err(e) => parse_from(acc@, argv_views(argv@).skip(i as int)) == Err::<ArgsV, ArgsErrorV>(e@),
        },
    decreases argv@.len() - i,
{
    let ghost rest = argv_views(argv@).skip(i as int);
    if i == argv.len() {
        proof {
            assert(rest =~= Seq::<Seq<char>>::empty());
        }
        return Ok(acc);
    }
    let a = argv[i];
    proof {
        assert(rest[0] == argv@[i as int]@);
        assert(rest.len() == argv@.len() - i);
    }
    let takes_value = str_eq(a, "-u") || str_eq(a, "--rpc-url") || str_eq(a, "-s") || str_eq(
        a,
        "--rpc-secret",
    ) || str_eq(a, "-t") || str_eq(a, "--transport") || str_eq(a, "--http-port") || str_eq(
        a,
        "--http-auth-token",
    ) || str_eq(a, "-L") || str_eq(a, "--log-level");
    if takes_value {
        if i + 1 >= argv.len() {
            return Err(ArgsError::MissingValue(a.to_owned()));
        }
        let v = argv[i + 1];
        proof {
            assert(rest[1] == argv@[i + 1]@);
            assert(rest.skip(2) =~= argv_views(argv@).skip(i + 2));
        }
        let mut acc = acc;
        if str_eq(a, "-u") || str_eq(a, "--rpc-url") {
            acc.rpc_url = v.to_owned();
        } else if str_eq(a, "-s") || str_eq(a, "--rpc-secret") {
            acc.rpc_secret = Some(v.to_owned());
        } else if str_eq(a, "-t") || str_eq(a, "--transport") {
            acc.transport = v.to_owned();
        } else if str_eq(a, "--http-port") {
            match parse_u16(v) {
                Some(p) => {
                    acc.http_port = p;
                },
                None => {
                    return Err(ArgsError::InvalidValue(v.to_owned()));
                },
            }
        } else if str_eq(a, "--http-auth-token") {
            acc.http_auth_token = Some(v.to_owned());
        } else {
            acc.log_level = v.to_owned();
        }
        parse_rest(acc, argv, i + 2)
    } else if str_eq(a, "-l") || str_eq(a, "--lazy") {
        proof {
            assert(rest.skip(1) =~= argv_views(argv@).skip(i + 1));
        }
        let mut acc = acc;
        acc.lazy = true;
        parse_rest(acc, argv, i + 1)
    } else if str_eq(a, "--no-verify-ssl") {
        proof {
            assert(rest.skip(1) =~= argv_views(argv@).skip(i + 1));
        }
        let mut acc = acc;
        acc.no_verify_ssl = true;
        parse_rest(acc, argv, i + 1)
    } else if str_eq(a, "--verify-ssl") {
        proof {
            assert(rest.skip(1) =~= argv_views(argv@).skip(i + 1));
        }
        let mut acc = acc;
        acc.verify_ssl = true;
        parse_rest(acc, argv, i + 1)
    } else if str_eq(a, "-V") || str_eq(a, "--version") {
        Err(ArgsError::DisplayVersion)
    } else if str_eq(a, "-h") || str_eq(a, "--help") {
        Err(ArgsError::DisplayHelp)
    } else {
        Err(ArgsError::UnknownFlag(a.to_owned()))
    }
}

/// The effective log level a requested one maps to: the five known
/// levels, compared without regard to case, and `info` for anything
/// else.
pub open spec fn log_level_of(s: Seq<char>) -> Seq<char> {
    let lowered = crate::strutil::lower_of(s);
    if lowered == "error"@ {
        "error"@
    } else if lowered == "warn"@ {
        "warn"@
    } else if lowered == "info"@ {
        "info"@
    } else if lowered == "debug"@ {
        "debug"@
    } else if lowered == "trace"@ {
        "trace"@
    } else {
        "info"@
    }
}

/// Maps a requested log level to the effective one.
pub fn parse_log_level(level: &str) -> (r: String)
    ensures
        r@ == log_level_of(level@),
{
    let lowered = crate::strutil::lowercase(level);
    if str_eq(lowered.as_str(), "error") {
        String::from_str("error")
    } else if str_eq(lowered.as_str(), "warn") {
        String::from_str("warn")
    } else if str_eq(lowered.as_str(), "info") {
        String::from_str("info")
    } else if str_eq(lowered.as_str(), "debug") {
        String::from_str("debug")
    } else if str_eq(lowered.as_str(), "trace") {
        String::from_str("trace")
    } else {
        String::from_str("info")
    }
}

impl Args {
    /// Parses an argument list, the first element being the program
    /// name, against the defaults.
    pub fn try_parse_from(argv: &Vec<&str>) -> (r: Result<Args, ArgsError>)
        ensures
            ({
                let rest = if argv@.len() == 0 {
                    argv_views(argv@)
                } else {
                    argv_views(argv@).skip(1)
                };
                match r {
                    Ok(a) => parse_from(default_args(), rest) == Ok::<ArgsV, ArgsErrorV>(a@),
                    Err(e) => parse_from(default_args(), rest) == Err::<ArgsV, ArgsErrorV>(e@),
                }
            }),
    {
        let start: usize = if argv.len() == 0 {
            0
        } else {
            1
        };
        proof {
            if argv@.len() == 0 {
                assert(argv_views(argv@).skip(0) =~= argv_views(argv@));
            }
        }
        parse_rest(make_default_args(), argv, start)
    }
}

} // verus!
