//! Command-line arguments.
//!
//! The parser works on plain string tokens (the caller turns OS
//! arguments into strings and handles help or version requests).  It
//! understands `-n`/`--listen` and `-P`/`--port` — each taking its
//! value either from the next token, attached to the short option
//! (`-n10.0.0.1`), or after `=` in the long form (`--port=9774`) —
//! `-h`/`--help` and `-V`/`--version` (also as the first letter of a
//! short-option cluster), `--` to end option parsing, and free
//! positional tokens as the configuration path (the last one wins).
//! Any other token that looks like an option is rejected.

use vstd::prelude::*;
use vstd::string::StrSliceExecFns;

use crate::strutil::all_digits;
use crate::strutil::dec_value;
use crate::strutil::parse_u64;
use crate::strutil::starts_with_spec;
use crate::strutil::str_skip;
use crate::strutil::str_starts_with;

verus! {

/// Arguments passed into the application.
#[derive(Clone, PartialEq, Eq, Debug)]
pub struct CliArgs {
    /// Listen address; by default `127.0.0.1`.
    pub listen_address: String,
    /// Listen port; by default 9774.
    pub listen_port: u16,
    /// Path to the configuration file.
    pub config_path: String,
}

/// Mathematical image of a [`CliArgs`].
#[verifier::ext_equal]
pub struct CliArgsV {
    pub listen_address: Seq<char>,
    pub listen_port: u16,
    pub config_path: Seq<char>,
}

impl View for CliArgs {
    type V = CliArgsV;

    open spec fn view(&self) -> CliArgsV {
        CliArgsV {
            listen_address: self.listen_address@,
            listen_port: self.listen_port,
            config_path: self.config_path@,
        }
    }
}

/// Why parsing stopped without a full argument set.
#[derive(Clone, PartialEq, Eq, Debug)]
pub enum ArgsError {
    /// `-h` or `--help` was given.
    HelpRequested,
    /// `-V` or `--version` was given.
    VersionRequested,
    /// An option token that the program does not know.
    UnexpectedArgument(String),
    /// An option that takes a value stood last, with nothing after it.
    MissingValue(String),
    /// The port value is not a decimal number within range.
    InvalidPort(String),
}

/// Mathematical image of an [`ArgsError`].
#[verifier::ext_equal]
pub enum ArgsErrorV {
    HelpRequested,
    VersionRequested,
    UnexpectedArgument(Seq<char>),
    MissingValue(Seq<char>),
    InvalidPort(Seq<char>),
}

impl View for ArgsError {
    type V = ArgsErrorV;

    open spec fn view(&self) -> ArgsErrorV {
        match self {
            ArgsError::HelpRequested => ArgsErrorV::HelpRequested,
            ArgsError::VersionRequested => ArgsErrorV::VersionRequested,
            ArgsError::UnexpectedArgument(s) => ArgsErrorV::UnexpectedArgument(s@),
            ArgsError::MissingValue(s) => ArgsErrorV::MissingValue(s@),
            ArgsError::InvalidPort(s) => ArgsErrorV::InvalidPort(s@),
        }
    }
}

/// The default argument values.
pub open spec fn default_args_v() -> CliArgsV {
    CliArgsV {
        listen_address: "127.0.0.1"@,
        listen_port: 9774u16,
        config_path: "/etc/litemon/config.kdl"@,
    }
}

/// The port a token denotes: a non-empty all-digit token whose value
/// fits in a `u16`.
pub open spec fn port_value(s: Seq<char>) -> Option<u16> {
    if s.len() > 0 && all_digits(s) && dec_value(s) <= u16::MAX {
        Some(dec_value(s) as u16)
    } else {
        None
    }
}

/// A token that looks like an option: a dash followed by more text.
pub open spec fn looks_like_option(t: Seq<char>) -> bool {
    t.len() >= 2 && t[0] == '-'
}

/// `acc` with the listen address replaced.
pub open spec fn with_address(acc: CliArgsV, addr: Seq<char>) -> CliArgsV {
    CliArgsV {
        listen_address: addr,
        listen_port: acc.listen_port,
        config_path: acc.config_path,
    }
}

/// `acc` with the listen port replaced.
pub open spec fn with_port(acc: CliArgsV, port: u16) -> CliArgsV {
    CliArgsV {
        listen_address: acc.listen_address,
        listen_port: port,
        config_path: acc.config_path,
    }
}

/// `acc` with the configuration path replaced.
pub open spec fn with_path(acc: CliArgsV, path: Seq<char>) -> CliArgsV {
    CliArgsV {
        listen_address: acc.listen_address,
        listen_port: acc.listen_port,
        config_path: path,
    }
}

/// After `--`, every remaining token is positional: each sets the
/// configuration path, so the last one wins.
pub open spec fn parse_positionals(toks: Seq<Seq<char>>, acc: CliArgsV) -> Result<
    CliArgsV,
    ArgsErrorV,
>
    decreases toks.len(),
{
    if toks.len() == 0 {
        Ok(acc)
    } else {
        parse_positionals(toks.skip(1), with_path(acc, toks[0]))
    }
}

/// What parsing the remaining tokens yields, starting from the
/// accumulated argument values `acc`.
pub open spec fn parse_args_spec(toks: Seq<Seq<char>>, acc: CliArgsV) -> Result<
    CliArgsV,
    ArgsErrorV,
>
    decreases toks.len(),
{
    if toks.len() == 0 {
        Ok(acc)
    } else {
        let t = toks[0];
        if t == "-h"@ || t == "--help"@ {
            Err(ArgsErrorV::HelpRequested)
        } else if t == "-V"@ || t == "--version"@ {
            Err(ArgsErrorV::VersionRequested)
        } else if t == "-n"@ || t == "--listen"@ {
            if toks.len() >= 2 {
                parse_args_spec(toks.skip(2), with_address(acc, toks[1]))
            } else {
                Err(ArgsErrorV::MissingValue(t))
            }
        } else if t == "-P"@ || t == "--port"@ {
            if toks.len() >= 2 {
                match port_value(toks[1]) {
                    Some(p) => parse_args_spec(toks.skip(2), with_port(acc, p)),
                    None => Err(ArgsErrorV::InvalidPort(toks[1])),
                }
            } else {
                Err(ArgsErrorV::MissingValue(t))
            }
        } else if starts_with_spec(t, "--listen="@) {
            parse_args_spec(toks.skip(1), with_address(acc, t.skip("--listen="@.len() as int)))
        } else if starts_with_spec(t, "--port="@) {
            match port_value(t.skip("--port="@.len() as int)) {
                Some(p) => parse_args_spec(toks.skip(1), with_port(acc, p)),
                None => Err(ArgsErrorV::InvalidPort(t.skip("--port="@.len() as int))),
            }
        } else if t == "--"@ {
            parse_positionals(toks.skip(1), acc)
        } else if starts_with_spec(t, "--"@) {
            Err(ArgsErrorV::UnexpectedArgument(t))
        } else if t.len() > 2 && t[0] == '-' && t[1] == 'h' {
            Err(ArgsErrorV::HelpRequested)
        } else if t.len() > 2 && t[0] == '-' && t[1] == 'V' {
            Err(ArgsErrorV::VersionRequested)
        } else if t.len() > 2 && t[0] == '-' && t[1] == 'n' {
            parse_args_spec(toks.skip(1), with_address(acc, t.skip(2)))
        } else if t.len() > 2 && t[0] == '-' && t[1] == 'P' {
            match port_value(t.skip(2)) {
                Some(p) => parse_args_spec(toks.skip(1), with_port(acc, p)),
                None => Err(ArgsErrorV::InvalidPort(t.skip(2))),
            }
        } else if looks_like_option(t) {
            Err(ArgsErrorV::UnexpectedArgument(t))
        } else {
            parse_args_spec(toks.skip(1), with_path(acc, t))
        }
    }
}

impl Default for CliArgs {
    /// The default argument values.
    fn default() -> (r: CliArgs)
        ensures
            r@ == default_args_v(),
    {
        let r = CliArgs {
            listen_address: "127.0.0.1".to_owned(),
            listen_port: 9774,
            config_path: "/etc/litemon/config.kdl".to_owned(),
        };
        proof {
            assert(r@ =~~= default_args_v());
        }
        r
    }
}

/// The port a token denotes, as the executable counterpart of
/// [`port_value`].
fn parse_port(s: &str) -> (r: Option<u16>)
    ensures
        r == port_value(s@),
{
    let parsed = parse_u64(s);
    match parsed {
        Some(p) if p <= 65535 => Some(p as u16),
        _ => None,
    }
}

impl CliArgs {
    /// Parse command-line tokens into argument values.  The first
    /// token is the program name and is skipped; parsing the rest
    /// follows [`parse_args_spec`] exactly, starting from the
    /// defaults.
    pub fn from_args(args: &Vec<String>) -> (r: Result<CliArgs, ArgsError>)
        ensures
            ({
                let toks = if args.deep_view().len() >= 1 {
                    args.deep_view().skip(1)
                } else {
                    args.deep_view()
                };
                match r {
                    Ok(a) => parse_args_spec(toks, default_args_v()) == Ok::<
                        CliArgsV,
                        ArgsErrorV,
                    >(a@),
                    Err(e) => parse_args_spec(toks, default_args_v()) == Err::<
                        CliArgsV,
                        ArgsErrorV,
                    >(e@),
                }
            }),
    {
        let ghost all = args.deep_view();
        let mut cur = CliArgs::default();
        let len = args.len();
        if len == 0 {
            return Ok(cur);
        }
        let ghost toks = all.skip(1);
        let mut i: usize = 1;
        while i < len
            invariant
                1 <= i <= len,
                len == args@.len(),
                all == args.deep_view(),
                toks == all.skip(1),
                parse_args_spec(toks, default_args_v()) == parse_args_spec(
                    all.skip(i as int),
                    cur@,
                ),
            decreases len - i,
        {
            let ghost rem = all.skip(i as int);
            proof {
                assert(rem[0] == all[i as int]);
                assert(rem.skip(1) =~= all.skip(i + 1));
                if i + 2 <= len {
                    assert(rem.skip(2) =~= all.skip(i + 2));
                }
            }
            let t = &args[i];
            let t_len = t.as_str().unicode_len();
            if crate::registry::str_eq(t.as_str(), "-h") || crate::registry::str_eq(
                t.as_str(),
                "--help",
            ) {
                return Err(ArgsError::HelpRequested);
            } else if crate::registry::str_eq(t.as_str(), "-V") || crate::registry::str_eq(
                t.as_str(),
                "--version",
            ) {
                return Err(ArgsError::VersionRequested);
            } else if crate::registry::str_eq(t.as_str(), "-n") || crate::registry::str_eq(
                t.as_str(),
                "--listen",
            ) {
                if i + 1 < len {
                    cur.listen_address = args[i + 1].clone();
                    i += 2;
                } else {
                    return Err(ArgsError::MissingValue(t.clone()));
                }
            } else if crate::registry::str_eq(t.as_str(), "-P") || crate::registry::str_eq(
                t.as_str(),
                "--port",
            ) {
                if i + 1 < len {
                    let parsed = parse_port(args[i + 1].as_str());
                    match parsed {
                        Some(p) => {
                            cur.listen_port = p;
                            i += 2;
                        },
                        None => {
                            return Err(ArgsError::InvalidPort(args[i + 1].clone()));
                        },
                    }
                } else {
                    return Err(ArgsError::MissingValue(t.clone()));
                }
            } else if str_starts_with(t.as_str(), "--listen=") {
                let plen = "--listen=".unicode_len();
                let value = str_skip(t.as_str(), plen);
                cur.listen_address = value;
                i += 1;
            } else if str_starts_with(t.as_str(), "--port=") {
                let plen = "--port=".unicode_len();
                let value = str_skip(t.as_str(), plen);
                let parsed = parse_port(value.as_str());
                match parsed {
                    Some(p) => {
                        cur.listen_port = p;
                        i += 1;
                    },
                    None => {
                        return Err(ArgsError::InvalidPort(value));
                    },
                }
            } else if crate::registry::str_eq(t.as_str(), "--") {
                // everything after `--` is positional
                let mut j: usize = i + 1;
                while j < len
                    invariant
                        i + 1 <= j <= len,
                        len == args@.len(),
                        all == args.deep_view(),
                        toks == all.skip(1),
                        parse_args_spec(toks, default_args_v()) == parse_positionals(
                            all.skip(j as int),
                            cur@,
                        ),
                    decreases len - j,
                {
                    proof {
                        assert(all.skip(j as int)[0] == all[j as int]);
                        assert(all.skip(j as int).skip(1) =~= all.skip(j + 1));
                    }
                    cur.config_path = args[j].clone();
                    j += 1;
                }
                proof {
                    assert(all.skip(len as int) =~= Seq::<Seq<char>>::empty());
                }
                return Ok(cur);
            } else if str_starts_with(t.as_str(), "--") {
                return Err(ArgsError::UnexpectedArgument(t.clone()));
            } else if t_len > 2 && t.as_str().get_char(0) == '-' && t.as_str().get_char(1)
                == 'h' {
                return Err(ArgsError::HelpRequested);
            } else if t_len > 2 && t.as_str().get_char(0) == '-' && t.as_str().get_char(1)
                == 'V' {
                return Err(ArgsError::VersionRequested);
            } else if t_len > 2 && t.as_str().get_char(0) == '-' && t.as_str().get_char(1)
                == 'n' {
                let value = str_skip(t.as_str(), 2);
                cur.listen_address = value;
                i += 1;
            } else if t_len > 2 && t.as_str().get_char(0) == '-' && t.as_str().get_char(1)
                == 'P' {
                let value = str_skip(t.as_str(), 2);
                let parsed = parse_port(value.as_str());
                match parsed {
                    Some(p) => {
                        cur.listen_port = p;
                        i += 1;
                    },
                    None => {
                        return Err(ArgsError::InvalidPort(value));
                    },
                }
            } else if t_len >= 2 && t.as_str().get_char(0) == '-' {
                return Err(ArgsError::UnexpectedArgument(t.clone()));
            } else {
                cur.config_path = t.clone();
                i += 1;
            }
        }
        proof {
            assert(all.skip(len as int) =~= Seq::<Seq<char>>::empty());
        }
        Ok(cur)
    }
}

} // verus!
