//! The command-line side of the client: argument parsing and the interactive
//! prompt.
//!
//! Arguments are read with a small option grammar: the first word that is not
//! an option is the host; `--name value`, `--name=value`, `-x value` and
//! `-xVALUE` give an option its value; `--` makes everything after it
//! positional; `-h`, `--help`, `-V` and `--version` stop parsing. An option
//! given twice keeps its last value.

pub mod parsing;
pub mod prompt;

use crate::text::attached_value;
use crate::text::attached_value_tok;
use crate::text::parse_bounded_dec;
use crate::text::spec_parse_dec;
use crate::text::starts_with;
use crate::text::str_eq;
use crate::text::str_starts_with;
use crate::text::suffix_after;
use vstd::prelude::*;
use vstd::string::StrSliceExecFns;
use vstd::string::StringExecFns;

verus! {

/// Whether a command-line word is an option: at least two characters, the
/// first a dash. A lone `-` is an ordinary value.
pub open spec fn is_option(t: Seq<char>) -> bool {
    t.len() >= 2 && t[0] == '-'
}

/// Runtime test for [`is_option`].
pub fn is_option_tok(t: &str) -> (r: bool)
    ensures
        r == is_option(t@),
{
    if t.unicode_len() < 2 {
        false
    } else {
        t.get_char(0) == '-'
    }
}

/// Why a command line was rejected.
#[derive(Debug, PartialEq)]
pub enum ArgsError {
    /// No host was given.
    MissingHost,
    /// A second positional word after the host.
    UnexpectedArgument { arg: String },
    /// A word that looks like an option but is none the parser knows.
    UnknownOption { arg: String },
    /// An option that takes a value stood last on the line.
    MissingValue { option: String },
    /// An option's value does not parse.
    InvalidValue { option: String, value: String },
    /// `-h` or `--help` was given.
    HelpRequested,
    /// `-V` or `--version` was given.
    VersionRequested,
}

/// The specification-level value of an [`ArgsError`].
#[verifier::ext_equal]
pub enum SpecArgsError {
    MissingHost,
    UnexpectedArgument { arg: Seq<char> },
    UnknownOption { arg: Seq<char> },
    MissingValue { option: Seq<char> },
    InvalidValue { option: Seq<char>, value: Seq<char> },
    HelpRequested,
    VersionRequested,
}

impl View for ArgsError {
    type V = SpecArgsError;

    open spec fn view(&self) -> SpecArgsError {
        match self {
            ArgsError::MissingHost => SpecArgsError::MissingHost,
            ArgsError::UnexpectedArgument { arg } => SpecArgsError::UnexpectedArgument {
                arg: arg@,
            },
            ArgsError::UnknownOption { arg } => SpecArgsError::UnknownOption { arg: arg@ },
            ArgsError::MissingValue { option } => SpecArgsError::MissingValue { option: option@ },
            ArgsError::InvalidValue { option, value } => SpecArgsError::InvalidValue {
                option: option@,
                value: value@,
            },
            ArgsError::HelpRequested => SpecArgsError::HelpRequested,
            ArgsError::VersionRequested => SpecArgsError::VersionRequested,
        }
    }
}

/// The connection settings read from the command line.
#[derive(Debug, PartialEq)]
pub struct Args {
    /// Address of the host to connect to.
    pub host: String,
    /// Port on which the connection should be established.
    pub port: u8,
    /// Use FTPS through openssl.
    pub openssl: bool,
}

/// The specification-level value of an [`Args`].
#[verifier::ext_equal]
pub struct SpecArgs {
    pub host: Seq<char>,
    pub port: u8,
    pub openssl: bool,
}

impl View for Args {
    type V = SpecArgs;

    open spec fn view(&self) -> SpecArgs {
        SpecArgs { host: self.host@, port: self.port, openssl: self.openssl }
    }
}

/// The parser's state: what has been seen so far.
#[verifier::ext_equal]
pub struct SpecPartial {
    pub host: Option<Seq<char>>,
    pub port: u8,
    pub openssl: bool,
    pub only_positional: bool,
}

/// One step of the argument grammar, from word `i` on.
pub open spec fn spec_step(toks: Seq<Seq<char>>, i: int, st: SpecPartial) -> Result<
    SpecArgs,
    SpecArgsError,
>
    decreases toks.len() - i,
{
    if !(0 <= i < toks.len()) {
        match st.host {
            Some(h) => Ok(SpecArgs { host: h, port: st.port, openssl: st.openssl }),
            None => Err(SpecArgsError::MissingHost),
        }
    } else {
        let t = toks[i];
        if st.only_positional || !is_option(t) {
            if st.host is None {
                spec_step(
                    toks,
                    i + 1,
                    SpecPartial {
                        host: Some(t),
                        port: st.port,
                        openssl: st.openssl,
                        only_positional: st.only_positional,
                    },
                )
            } else {
                Err(SpecArgsError::UnexpectedArgument { arg: t })
            }
        } else if t == "--"@ {
            spec_step(
                toks,
                i + 1,
                SpecPartial {
                    host: st.host,
                    port: st.port,
                    openssl: st.openssl,
                    only_positional: true,
                },
            )
        } else if t == "-h"@ || t == "--help"@ {
            Err(SpecArgsError::HelpRequested)
        } else if t == "-V"@ || t == "--version"@ {
            Err(SpecArgsError::VersionRequested)
        } else if t == "--openssl"@ {
            spec_step(
                toks,
                i + 1,
                SpecPartial {
                    host: st.host,
                    port: st.port,
                    openssl: true,
                    only_positional: st.only_positional,
                },
            )
        } else if t == "-p"@ || t == "--port"@ {
            if i + 1 >= toks.len() {
                Err(SpecArgsError::MissingValue { option: t })
            } else {
                match spec_parse_dec(toks[i + 1], 255) {
                    Some(v) => spec_step(
                        toks,
                        i + 2,
                        SpecPartial {
                            host: st.host,
                            port: v as u8,
                            openssl: st.openssl,
                            only_positional: st.only_positional,
                        },
                    ),
                    None => Err(SpecArgsError::InvalidValue { option: t, value: toks[i + 1] }),
                }
            }
        } else if starts_with(t, "--port="@) {
            let v = t.subrange("--port="@.len() as int, t.len() as int);
            match spec_parse_dec(v, 255) {
                Some(n) => spec_step(
                    toks,
                    i + 1,
                    SpecPartial {
                        host: st.host,
                        port: n as u8,
                        openssl: st.openssl,
                        only_positional: st.only_positional,
                    },
                ),
                None => Err(SpecArgsError::InvalidValue { option: "--port"@, value: v }),
            }
        } else if starts_with(t, "-p"@) {
            match spec_parse_dec(attached_value(t, "-p"@), 255) {
                Some(n) => spec_step(
                    toks,
                    i + 1,
                    SpecPartial {
                        host: st.host,
                        port: n as u8,
                        openssl: st.openssl,
                        only_positional: st.only_positional,
                    },
                ),
                None => Err(
                    SpecArgsError::InvalidValue { option: "-p"@, value: attached_value(t, "-p"@) },
                ),
            }
        } else {
            Err(SpecArgsError::UnknownOption { arg: t })
        }
    }
}

/// What the whole command line parses to.
pub open spec fn spec_parse_args(toks: Seq<Seq<char>>) -> Result<SpecArgs, SpecArgsError> {
    spec_step(
        toks,
        0,
        SpecPartial { host: None, port: 21, openssl: false, only_positional: false },
    )
}

/// The specification-level value of a parse result.
pub open spec fn result_view(r: Result<Args, ArgsError>) -> Result<SpecArgs, SpecArgsError> {
    match r {
        Ok(a) => Ok(a@),
        Err(e) => Err(e@),
    }
}

/// Parses the words of the command line (the program name excluded) into the
/// connection settings.
pub fn init(argv: &Vec<String>) -> (r: Result<Args, ArgsError>)
    ensures
        result_view(r) == spec_parse_args(argv.deep_view()),
{
    let ghost tv = argv.deep_view();
    let mut host: Option<String> = None;
    let mut port: u8 = 21;
    let mut openssl = false;
    let mut only_positional = false;
    let mut i: usize = 0;
    while i < argv.len()
        invariant
            i <= argv@.len(),
            tv == argv.deep_view(),
            spec_step(
                tv,
                i as int,
                (SpecPartial {
                    host: host.deep_view(),
                    port: port,
                    openssl: openssl,
                    only_positional: only_positional,
                }),
            ) == spec_parse_args(tv),
        decreases argv@.len() - i,
    {
        proof {
            assert(tv[i as int] == argv@[i as int]@);
        }
        let t = &argv[i];
        let ts = t.as_str();
        if only_positional || !is_option_tok(ts) {
            if host.is_none() {
                host = Some(t.clone());
                i = i + 1;
            } else {
                return Err(ArgsError::UnexpectedArgument { arg: t.clone() });
            }
        } else if str_eq(ts, "--") {
            only_positional = true;
            i = i + 1;
        } else if str_eq(ts, "-h") || str_eq(ts, "--help") {
            return Err(ArgsError::HelpRequested);
        } else if str_eq(ts, "-V") || str_eq(ts, "--version") {
            return Err(ArgsError::VersionRequested);
        } else if str_eq(ts, "--openssl") {
            openssl = true;
            i = i + 1;
        } else if str_eq(ts, "-p") || str_eq(ts, "--port") {
            if i + 1 >= argv.len() {
                return Err(ArgsError::MissingValue { option: t.clone() });
            }
            proof {
                assert(tv[i + 1] == argv@[i + 1]@);
            }
            match parse_bounded_dec(argv[i + 1].as_str(), 255) {
                Some(v) => {
                    port = v as u8;
                    i = i + 2;
                },
                None => {
                    return Err(
                        ArgsError::InvalidValue { option: t.clone(), value: argv[i + 1].clone() },
                    );
                },
            }
        } else if str_starts_with(ts, "--port=") {
            let v = suffix_after(ts, "--port=");
            match parse_bounded_dec(v.as_str(), 255) {
                Some(n) => {
                    port = n as u8;
                    i = i + 1;
                },
                None => {
                    return Err(
                        ArgsError::InvalidValue { option: String::from_str("--port"), value: v },
                    );
                },
            }
        } else if str_starts_with(ts, "-p") {
            let v = attached_value_tok(ts, "-p");
            match parse_bounded_dec(v.as_str(), 255) {
                Some(n) => {
                    port = n as u8;
                    i = i + 1;
                },
                None => {
                    return Err(ArgsError::InvalidValue { option: String::from_str("-p"), value: v });
                },
            }
        } else {
            return Err(ArgsError::UnknownOption { arg: t.clone() });
        }
    }
    match host {
        Some(h) => Ok(Args { host: h, port, openssl }),
        None => Err(ArgsError::MissingHost),
    }
}

} // verus!
