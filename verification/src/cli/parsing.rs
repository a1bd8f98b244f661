//! Parsing of the client's command line: host, port, TLS, and credentials.
//!
//! The grammar is the one described at [`crate::cli`]: one positional host,
//! `--port`/`-p`, the `--tls` flag, `--username`/`-U` and `--password`/`-P`,
//! with `--name=value` accepted for the long forms and an attached value
//! (`-p21`, `-p=21`) for the short ones.

use crate::cli::is_option;
use crate::cli::is_option_tok;
use crate::cli::ArgsError;
use crate::cli::SpecArgsError;
use crate::text::attached_value;
use crate::text::attached_value_tok;
use crate::text::parse_bounded_dec;
use crate::text::spec_parse_dec;
use crate::text::starts_with;
use crate::text::str_eq;
use crate::text::str_starts_with;
use crate::text::suffix_after;
use vstd::prelude::*;
use vstd::string::StringExecFns;

verus! {

/// The connection settings read from the command line.
#[derive(Debug, PartialEq)]
pub struct Args {
    /// Address of the host to connect to.
    pub host: String,
    /// Port on which the connection should be established.
    pub port: u16,
    /// Use FTPS through TLS.
    pub tls: bool,
    /// Username to use for login.
    pub username: String,
    /// Password to use for login.
    pub password: String,
}

/// The specification-level value of an [`Args`].
#[verifier::ext_equal]
pub struct SpecArgs {
    pub host: Seq<char>,
    pub port: u16,
    pub tls: bool,
    pub username: Seq<char>,
    pub password: Seq<char>,
}

impl View for Args {
    type V = SpecArgs;

    open spec fn view(&self) -> SpecArgs {
        SpecArgs {
            host: self.host@,
            port: self.port,
            tls: self.tls,
            username: self.username@,
            password: self.password@,
        }
    }
}

/// The parser's state: what has been seen so far. The username defaults to
/// `anonymous` and the password to the empty string.
#[verifier::ext_equal]
pub struct SpecPartial {
    pub host: Option<Seq<char>>,
    pub port: u16,
    pub tls: bool,
    pub username: Seq<char>,
    pub password: Seq<char>,
    pub only_positional: bool,
}

/// One step of the argument grammar, from word `i` on.
pub open spec fn spec_step(toks: Seq<Seq<char>>, i: int, st: SpecPartial) -> Result<
    SpecArgs,
    SpecArgsError,
>
    decreases toks.len() - i,
{
    if !(0 <= i < toks.len()) {
        match st.host {
            Some(h) => Ok(
                SpecArgs {
                    host: h,
                    port: st.port,
                    tls: st.tls,
                    username: st.username,
                    password: st.password,
                },
            ),
            None => Err(SpecArgsError::MissingHost),
        }
    } else {
        let t = toks[i];
        if st.only_positional || !is_option(t) {
            if st.host is None {
                spec_step(toks, i + 1, SpecPartial { host: Some(t), ..st })
            } else {
                Err(SpecArgsError::UnexpectedArgument { arg: t })
            }
        } else if t == "--"@ {
            spec_step(toks, i + 1, SpecPartial { only_positional: true, ..st })
        } else if t == "-h"@ || t == "--help"@ {
            Err(SpecArgsError::HelpRequested)
        } else if t == "-V"@ || t == "--version"@ {
            Err(SpecArgsError::VersionRequested)
        } else if t == "--tls"@ {
            spec_step(toks, i + 1, SpecPartial { tls: true, ..st })
        } else if t == "-p"@ || t == "--port"@ {
            if i + 1 >= toks.len() {
                Err(SpecArgsError::MissingValue { option: t })
            } else {
                match spec_parse_dec(toks[i + 1], 0xFFFF) {
                    Some(v) => spec_step(toks, i + 2, SpecPartial { port: v as u16, ..st }),
                    None => Err(SpecArgsError::InvalidValue { option: t, value: toks[i + 1] }),
                }
            }
        } else if starts_with(t, "--port="@) {
            let v = t.subrange("--port="@.len() as int, t.len() as int);
            match spec_parse_dec(v, 0xFFFF) {
                Some(n) => spec_step(toks, i + 1, SpecPartial { port: n as u16, ..st }),
                None => Err(SpecArgsError::InvalidValue { option: "--port"@, value: v }),
            }
        } else if t == "-U"@ || t == "--username"@ {
            if i + 1 >= toks.len() {
                Err(SpecArgsError::MissingValue { option: t })
            } else {
                spec_step(toks, i + 2, SpecPartial { username: toks[i + 1], ..st })
            }
        } else if starts_with(t, "--username="@) {
            spec_step(
                toks,
                i + 1,
                SpecPartial {
                    username: t.subrange("--username="@.len() as int, t.len() as int),
                    ..st
                },
            )
        } else if t == "-P"@ || t == "--password"@ {
            if i + 1 >= toks.len() {
                Err(SpecArgsError::MissingValue { option: t })
            } else {
                spec_step(toks, i + 2, SpecPartial { password: toks[i + 1], ..st })
            }
        } else if starts_with(t, "--password="@) {
            spec_step(
                toks,
                i + 1,
                SpecPartial {
                    password: t.subrange("--password="@.len() as int, t.len() as int),
                    ..st
                },
            )
        } else if starts_with(t, "-p"@) {
            match spec_parse_dec(attached_value(t, "-p"@), 0xFFFF) {
                Some(n) => spec_step(toks, i + 1, SpecPartial { port: n as u16, ..st }),
                None => Err(
                    SpecArgsError::InvalidValue { option: "-p"@, value: attached_value(t, "-p"@) },
                ),
            }
        } else if starts_with(t, "-U"@) {
            spec_step(toks, i + 1, SpecPartial { username: attached_value(t, "-U"@), ..st })
        } else if starts_with(t, "-P"@) {
            spec_step(toks, i + 1, SpecPartial { password: attached_value(t, "-P"@), ..st })
        } else {
            Err(SpecArgsError::UnknownOption { arg: t })
        }
    }
}

/// What the whole command line parses to.
pub open spec fn spec_parse_args(toks: Seq<Seq<char>>) -> Result<SpecArgs, SpecArgsError> {
    spec_step(
        toks,
        0,
        SpecPartial {
            host: None,
            port: 21,
            tls: false,
            username: "anonymous"@,
            password: ""@,
            only_positional: false,
        },
    )
}

/// The usage text shown when the command line is rejected or help is asked
/// for.
pub fn usage_text() -> (r: String)
    ensures
        r@
            == "Usage: ftpcli [OPTIONS] <host>\n\nArguments:\n  <host>  Address of the host to connect to\n\nOptions:\n  -p, --port <PORT>          Port on which connection should be established [default: 21]\n      --tls                  Use FTPS through TLS\n  -U, --username <USERNAME>  Username to use for login [default: anonymous]\n  -P, --password <PASSWORD>  Password to use for login [default: ]\n  -h, --help                 Print help\n  -V, --version              Print version"@,
{
    String::from_str(
        "Usage: ftpcli [OPTIONS] <host>\n\nArguments:\n  <host>  Address of the host to connect to\n\nOptions:\n  -p, --port <PORT>          Port on which connection should be established [default: 21]\n      --tls                  Use FTPS through TLS\n  -U, --username <USERNAME>  Username to use for login [default: anonymous]\n  -P, --password <PASSWORD>  Password to use for login [default: ]\n  -h, --help                 Print help\n  -V, --version              Print version",
    )
}

/// The specification-level value of a parse result.
pub open spec fn result_view(r: Result<Args, ArgsError>) -> Result<SpecArgs, SpecArgsError> {
    match r {
        Ok(a) => Ok(a@),
        Err(e) => Err(e@),
    }
}

/// Parses the words of the command line (the program name excluded) into the
/// connection settings.
pub fn init(argv: &Vec<String>) -> (r: Result<Args, ArgsError>)
    ensures
        result_view(r) == spec_parse_args(argv.deep_view()),
{
    let ghost tv = argv.deep_view();
    let mut host: Option<String> = None;
    let mut port: u16 = 21;
    let mut tls = false;
    let mut username = String::from_str("anonymous");
    let mut password = String::from_str("");
    let mut only_positional = false;
    let mut i: usize = 0;
    while i < argv.len()
        invariant
            i <= argv@.len(),
            tv == argv.deep_view(),
            spec_step(
                tv,
                i as int,
                (SpecPartial {
                    host: host.deep_view(),
                    port: port,
                    tls: tls,
                    username: username@,
                    password: password@,
                    only_positional: only_positional,
                }),
            ) == spec_parse_args(tv),
        decreases argv@.len() - i,
    {
        proof {
            assert(tv[i as int] == argv@[i as int]@);
        }
        let t = &argv[i];
        let ts = t.as_str();
        if only_positional || !is_option_tok(ts) {
            if host.is_none() {
                host = Some(t.clone());
                i = i + 1;
            } else {
                return Err(ArgsError::UnexpectedArgument { arg: t.clone() });
            }
        } else if str_eq(ts, "--") {
            only_positional = true;
            i = i + 1;
        } else if str_eq(ts, "-h") || str_eq(ts, "--help") {
            return Err(ArgsError::HelpRequested);
        } else if str_eq(ts, "-V") || str_eq(ts, "--version") {
            return Err(ArgsError::VersionRequested);
        } else if str_eq(ts, "--tls") {
            tls = true;
            i = i + 1;
        } else if str_eq(ts, "-p") || str_eq(ts, "--port") {
            if i + 1 >= argv.len() {
                return Err(ArgsError::MissingValue { option: t.clone() });
            }
            proof {
                assert(tv[i + 1] == argv@[i + 1]@);
            }
            match parse_bounded_dec(argv[i + 1].as_str(), 0xFFFF) {
                Some(v) => {
                    port = v as u16;
                    i = i + 2;
                },
                None => {
                    return Err(
                        ArgsError::InvalidValue { option: t.clone(), value: argv[i + 1].clone() },
                    );
                },
            }
        } else if str_starts_with(ts, "--port=") {
            let v = suffix_after(ts, "--port=");
            match parse_bounded_dec(v.as_str(), 0xFFFF) {
                Some(n) => {
                    port = n as u16;
                    i = i + 1;
                },
                None => {
                    return Err(
                        ArgsError::InvalidValue { option: String::from_str("--port"), value: v },
                    );
                },
            }
        } else if str_eq(ts, "-U") || str_eq(ts, "--username") {
            if i + 1 >= argv.len() {
                return Err(ArgsError::MissingValue { option: t.clone() });
            }
            proof {
                assert(tv[i + 1] == argv@[i + 1]@);
            }
            username = argv[i + 1].clone();
            i = i + 2;
        } else if str_starts_with(ts, "--username=") {
            username = suffix_after(ts, "--username=");
            i = i + 1;
        } else if str_eq(ts, "-P") || str_eq(ts, "--password") {
            if i + 1 >= argv.len() {
                return Err(ArgsError::MissingValue { option: t.clone() });
            }
            proof {
                assert(tv[i + 1] == argv@[i + 1]@);
            }
            password = argv[i + 1].clone();
            i = i + 2;
        } else if str_starts_with(ts, "--password=") {
            password = suffix_after(ts, "--password=");
            i = i + 1;
        } else if str_starts_with(ts, "-p") {
            let v = attached_value_tok(ts, "-p");
            match parse_bounded_dec(v.as_str(), 0xFFFF) {
                Some(n) => {
                    port = n as u16;
                    i = i + 1;
                },
                None => {
                    return Err(ArgsError::InvalidValue { option: String::from_str("-p"), value: v });
                },
            }
        } else if str_starts_with(ts, "-U") {
            username = attached_value_tok(ts, "-U");
            i = i + 1;
        } else if str_starts_with(ts, "-P") {
            password = attached_value_tok(ts, "-P");
            i = i + 1;
        } else {
            return Err(ArgsError::UnknownOption { arg: t.clone() });
        }
    }
    match host {
        Some(h) => Ok(
            Args { host: h, port: port, tls: tls, username: username, password: password },
        ),
        None => Err(ArgsError::MissingHost),
    }
}

} // verus!
