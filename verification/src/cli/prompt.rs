//! The interactive prompt: tokenization of an input line into a command and
//! its arguments, and the dispatch decision the client takes for each line.

use crate::style;
use crate::text::str_eq;
use vstd::prelude::*;
use vstd::string::StrSliceExecFns;
use vstd::string::StringExecFns;

verus! {

/// Whether a character separates words on the command line: the Unicode
/// white-space characters, the set the standard library's `char::is_whitespace`
/// recognizes.
pub open spec fn is_space_char(c: char) -> bool {
    let u = c as int;
    (9 <= u && u <= 13) || u == 32 || u == 0x85 || u == 0xA0 || u == 0x1680 || (0x2000 <= u && u
        <= 0x200A) || u == 0x2028 || u == 0x2029 || u == 0x202F || u == 0x205F || u == 0x3000
}

/// Runtime test for [`is_space_char`].
pub fn is_space(c: char) -> (r: bool)
    ensures
        r == is_space_char(c),
{
    let u = c as u32;
    (9 <= u && u <= 13) || u == 32 || u == 0x85 || u == 0xA0 || u == 0x1680 || (0x2000 <= u && u
        <= 0x200A) || u == 0x2028 || u == 0x2029 || u == 0x202F || u == 0x205F || u == 0x3000
}

/// The position where the word starting at `i` ends: the first position at or
/// after `i` that is past the end of `s` or holds white space.
pub open spec fn word_end(s: Seq<char>, i: int) -> int
    decreases s.len() - i,
{
    if !(0 <= i < s.len()) {
        i
    } else if is_space_char(s[i]) {
        i
    } else {
        word_end(s, i + 1)
    }
}

/// `word_end` stays within the string and does not move backwards; every
/// character it skips is non-space, and it stops at the end or at white space.
pub proof fn lemma_word_end_props(s: Seq<char>, i: int)
    requires
        0 <= i <= s.len(),
    ensures
        i <= word_end(s, i) <= s.len(),
        forall|k: int| i <= k < word_end(s, i) ==> !is_space_char(s[k]),
        word_end(s, i) == s.len() || is_space_char(s[word_end(s, i)]),
    decreases s.len() - i,
{
    if i < s.len() && !is_space_char(s[i]) {
        lemma_word_end_props(s, i + 1);
    }
}

/// The words of `s` from position `i` on: maximal runs of non-space
/// characters, in order.
pub open spec fn tokens_from(s: Seq<char>, i: int) -> Seq<Seq<char>>
    decreases s.len() - i,
    via tokens_from_dec
{
    if !(0 <= i < s.len()) {
        Seq::empty()
    } else if is_space_char(s[i]) {
        tokens_from(s, i + 1)
    } else {
        seq![s.subrange(i, word_end(s, i))] + tokens_from(s, word_end(s, i))
    }
}

#[via_fn]
proof fn tokens_from_dec(s: Seq<char>, i: int) {
    if 0 <= i < s.len() && !is_space_char(s[i]) {
        lemma_word_end_props(s, i);
    }
}

/// The words of `s`: what splitting `s` on white space yields.
pub open spec fn tokens_of(s: Seq<char>) -> Seq<Seq<char>> {
    tokens_from(s, 0)
}

/// If everything in `[i, j)` is non-space and `j` is the end of the string or
/// white space, then `j` is exactly where the word starting at `i` ends.
proof fn lemma_word_end_at(s: Seq<char>, i: int, j: int)
    requires
        0 <= i <= j <= s.len(),
        forall|k: int| i <= k < j ==> !is_space_char(s[k]),
        j == s.len() || is_space_char(s[j]),
    ensures
        word_end(s, i) == j,
    decreases j - i,
{
    if i < j {
        lemma_word_end_at(s, i + 1, j);
    }
}

/// Splits a line into its white-space-separated words.
pub fn tokenize(s: &str) -> (r: Vec<String>)
    ensures
        r.deep_view() == tokens_of(s@),
{
    let n = s.unicode_len();
    let mut out: Vec<String> = Vec::new();
    let mut i: usize = 0;
    while i < n
        invariant
            i <= n,
            n == s@.len(),
            out.deep_view() + tokens_from(s@, i as int) == tokens_of(s@),
        decreases n - i,
    {
        let c = s.get_char(i);
        if is_space(c) {
            i = i + 1;
        } else {
            let start = i;
            let mut j: usize = i;
            while j < n
                invariant_except_break
                    i <= j <= n,
                    n == s@.len(),
                    i < n,
                    !is_space_char(s@[i as int]),
                    forall|k: int| i <= k < j ==> !is_space_char(s@[k]),
                ensures
                    i < j <= n,
                    n == s@.len(),
                    forall|k: int| i <= k < j ==> !is_space_char(s@[k]),
                    j == n || is_space_char(s@[j as int]),
                decreases n - j,
            {
                if is_space(s.get_char(j)) {
                    break ;
                }
                j = j + 1;
            }
            proof {
                lemma_word_end_at(s@, i as int, j as int);
            }
            let w = s.substring_char(start, j).to_owned();
            let ghost old_out = out.deep_view();
            out.push(w);
            proof {
                assert(out.deep_view() =~= old_out.push(w@));
                assert(old_out.push(w@) + tokens_from(s@, j as int) =~= old_out + (seq![w@]
                    + tokens_from(s@, j as int)));
                assert(seq![w@] + tokens_from(s@, j as int) == tokens_from(s@, i as int));
            }
            i = j;
        }
    }
    proof {
        assert(out.deep_view() + tokens_from(s@, n as int) =~= out.deep_view());
    }
    out
}

/// The commands whose usage is printed when they are invoked with too few
/// arguments.
#[derive(Clone, Copy, Debug, PartialEq, Eq, Structural)]
pub enum UsageTopic {
    Cd,
    Mkdir,
    Append,
    Rm,
    Rmdir,
    Size,
    Get,
    Put,
    User,
}

/// What the client decides to do with one line of input.
#[derive(Debug, PartialEq)]
pub enum Directive {
    /// Keep the connection alive and do nothing else.
    Noop,
    /// Print the remote working directory.
    Pwd,
    /// Print the local working directory.
    Lpwd,
    /// Change the remote working directory.
    Cwd { dir: String },
    /// Move up one remote directory.
    Cdup,
    /// Create a remote directory.
    Mkdir { dir: String },
    /// List a remote directory.
    Ls { target: String },
    /// Append a local file to a remote file.
    Append { local: String, remote: String },
    /// Delete remote files.
    Rm { files: Vec<String> },
    /// Delete a remote directory.
    Rmdir { dir: String },
    /// Query the sizes of remote files.
    Size { files: Vec<String> },
    /// Change remote file permissions; the client does not implement this.
    Chmod,
    /// Download a remote file into a freshly created local file.
    Get { remote: String, local: String },
    /// Upload a local file.
    Put { local: String, remote: String },
    /// Log in again as another user.
    User { name: String },
    /// Close the session and leave.
    Quit,
    /// Print help for the given topic; the topic is empty when none was
    /// named.
    Help { topic: String },
    /// The command was given too few arguments; print its usage.
    Usage { topic: UsageTopic },
    /// The first word is no known command.
    Invalid,
}

/// The specification-level value of a [`Directive`], with every string seen
/// as its character sequence.
#[verifier::ext_equal]
pub enum SpecDirective {
    Noop,
    Pwd,
    Lpwd,
    Cwd { dir: Seq<char> },
    Cdup,
    Mkdir { dir: Seq<char> },
    Ls { target: Seq<char> },
    Append { local: Seq<char>, remote: Seq<char> },
    Rm { files: Seq<Seq<char>> },
    Rmdir { dir: Seq<char> },
    Size { files: Seq<Seq<char>> },
    Chmod,
    Get { remote: Seq<char>, local: Seq<char> },
    Put { local: Seq<char>, remote: Seq<char> },
    User { name: Seq<char> },
    Quit,
    Help { topic: Seq<char> },
    Usage { topic: UsageTopic },
    Invalid,
}

impl View for Directive {
    type V = SpecDirective;

    open spec fn view(&self) -> SpecDirective {
        match self {
            Directive::Noop => SpecDirective::Noop,
            Directive::Pwd => SpecDirective::Pwd,
            Directive::Lpwd => SpecDirective::Lpwd,
            Directive::Cwd { dir } => SpecDirective::Cwd { dir: dir@ },
            Directive::Cdup => SpecDirective::Cdup,
            Directive::Mkdir { dir } => SpecDirective::Mkdir { dir: dir@ },
            Directive::Ls { target } => SpecDirective::Ls { target: target@ },
            Directive::Append { local, remote } => SpecDirective::Append {
                local: local@,
                remote: remote@,
            },
            Directive::Rm { files } => SpecDirective::Rm { files: files.deep_view() },
            Directive::Rmdir { dir } => SpecDirective::Rmdir { dir: dir@ },
            Directive::Size { files } => SpecDirective::Size { files: files.deep_view() },
            Directive::Chmod => SpecDirective::Chmod,
            Directive::Get { remote, local } => SpecDirective::Get {
                remote: remote@,
                local: local@,
            },
            Directive::Put { local, remote } => SpecDirective::Put {
                local: local@,
                remote: remote@,
            },
            Directive::User { name } => SpecDirective::User { name: name@ },
            Directive::Quit => SpecDirective::Quit,
            Directive::Help { topic } => SpecDirective::Help { topic: topic@ },
            Directive::Usage { topic } => SpecDirective::Usage { topic: *topic },
            Directive::Invalid => SpecDirective::Invalid,
        }
    }
}

/// The directive for a tokenized line: the first word picks the command, the
/// rest are its arguments, and a command given too few arguments becomes a
/// usage message instead.
pub open spec fn spec_parse_tokens(toks: Seq<Seq<char>>) -> SpecDirective {
    if toks.len() == 0 {
        SpecDirective::Noop
    } else {
        let c = toks[0];
        if c == "pwd"@ {
            SpecDirective::Pwd
        } else if c == "lpwd"@ {
            SpecDirective::Lpwd
        } else if c == "cd"@ || c == "cwd"@ {
            if toks.len() < 2 {
                SpecDirective::Usage { topic: UsageTopic::Cd }
            } else {
                SpecDirective::Cwd { dir: toks[1] }
            }
        } else if c == "cdup"@ {
            SpecDirective::Cdup
        } else if c == "mkdir"@ {
            if toks.len() < 2 {
                SpecDirective::Usage { topic: UsageTopic::Mkdir }
            } else {
                SpecDirective::Mkdir { dir: toks[1] }
            }
        } else if c == "ls"@ || c == "dir"@ {
            if toks.len() < 2 {
                SpecDirective::Ls { target: "."@ }
            } else {
                SpecDirective::Ls { target: toks[1] }
            }
        } else if c == "append"@ {
            if toks.len() < 3 {
                SpecDirective::Usage { topic: UsageTopic::Append }
            } else {
                SpecDirective::Append { local: toks[1], remote: toks[2] }
            }
        } else if c == "delete"@ || c == "rm"@ {
            if toks.len() < 2 {
                SpecDirective::Usage { topic: UsageTopic::Rm }
            } else {
                SpecDirective::Rm { files: toks.subrange(1, toks.len() as int) }
            }
        } else if c == "rmdir"@ {
            if toks.len() < 2 {
                SpecDirective::Usage { topic: UsageTopic::Rmdir }
            } else {
                SpecDirective::Rmdir { dir: toks[1] }
            }
        } else if c == "size"@ {
            if toks.len() < 2 {
                SpecDirective::Usage { topic: UsageTopic::Size }
            } else {
                SpecDirective::Size { files: toks.subrange(1, toks.len() as int) }
            }
        } else if c == "chmod"@ {
            SpecDirective::Chmod
        } else if c == "get"@ {
            if toks.len() < 2 {
                SpecDirective::Usage { topic: UsageTopic::Get }
            } else if toks.len() == 2 {
                SpecDirective::Get { remote: toks[1], local: toks[1] }
            } else {
                SpecDirective::Get { remote: toks[1], local: toks[2] }
            }
        } else if c == "put"@ {
            if toks.len() < 2 {
                SpecDirective::Usage { topic: UsageTopic::Put }
            } else if toks.len() == 2 {
                SpecDirective::Put { local: toks[1], remote: toks[1] }
            } else {
                SpecDirective::Put { local: toks[1], remote: toks[2] }
            }
        } else if c == "user"@ {
            if toks.len() < 2 {
                SpecDirective::Usage { topic: UsageTopic::User }
            } else {
                SpecDirective::User { name: toks[1] }
            }
        } else if c == "noop"@ {
            SpecDirective::Noop
        } else if c == "bye"@ || c == "quit"@ || c == "exit"@ {
            SpecDirective::Quit
        } else if c == "help"@ {
            if toks.len() < 2 {
                SpecDirective::Help { topic: Seq::empty() }
            } else {
                SpecDirective::Help { topic: toks[1] }
            }
        } else {
            SpecDirective::Invalid
        }
    }
}

/// The words after the first: the arguments of the command.
fn tail_of(toks: &Vec<String>) -> (r: Vec<String>)
    requires
        toks@.len() >= 1,
    ensures
        r.deep_view() == toks.deep_view().subrange(1, toks@.len() as int),
{
    let mut r: Vec<String> = Vec::new();
    let mut i: usize = 1;
    while i < toks.len()
        invariant
            1 <= i <= toks@.len(),
            r.deep_view() =~= toks.deep_view().subrange(1, i as int),
        decreases toks@.len() - i,
    {
        let ghost old_r = r.deep_view();
        r.push(toks[i].clone());
        proof {
            assert(r.deep_view() =~= old_r.push(toks@[i as int]@));
            assert(r.deep_view() =~= toks.deep_view().subrange(1, i + 1));
        }
        i = i + 1;
    }
    proof {
        assert(r.deep_view() =~= toks.deep_view().subrange(1, toks@.len() as int));
    }
    r
}

/// Turns a tokenized line into the directive the client follows.
pub fn parse_tokens(toks: &Vec<String>) -> (d: Directive)
    ensures
        d@ == spec_parse_tokens(toks.deep_view()),
{
    if toks.len() == 0 {
        return Directive::Noop;
    }
    let ghost tv = toks.deep_view();
    proof {
        assert(tv[0] == toks@[0]@);
        assert(forall|i: int| 0 <= i < toks@.len() ==> tv[i] == toks@[i]@);
    }
    let c = toks[0].as_str();
    if str_eq(c, "pwd") {
        Directive::Pwd
    } else if str_eq(c, "lpwd") {
        Directive::Lpwd
    } else if str_eq(c, "cd") || str_eq(c, "cwd") {
        if toks.len() < 2 {
            Directive::Usage { topic: UsageTopic::Cd }
        } else {
            Directive::Cwd { dir: toks[1].clone() }
        }
    } else if str_eq(c, "cdup") {
        Directive::Cdup
    } else if str_eq(c, "mkdir") {
        if toks.len() < 2 {
            Directive::Usage { topic: UsageTopic::Mkdir }
        } else {
            Directive::Mkdir { dir: toks[1].clone() }
        }
    } else if str_eq(c, "ls") || str_eq(c, "dir") {
        if toks.len() < 2 {
            Directive::Ls { target: String::from_str(".") }
        } else {
            Directive::Ls { target: toks[1].clone() }
        }
    } else if str_eq(c, "append") {
        if toks.len() < 3 {
            Directive::Usage { topic: UsageTopic::Append }
        } else {
            Directive::Append { local: toks[1].clone(), remote: toks[2].clone() }
        }
    } else if str_eq(c, "delete") || str_eq(c, "rm") {
        if toks.len() < 2 {
            Directive::Usage { topic: UsageTopic::Rm }
        } else {
            Directive::Rm { files: tail_of(toks) }
        }
    } else if str_eq(c, "rmdir") {
        if toks.len() < 2 {
            Directive::Usage { topic: UsageTopic::Rmdir }
        } else {
            Directive::Rmdir { dir: toks[1].clone() }
        }
    } else if str_eq(c, "size") {
        if toks.len() < 2 {
            Directive::Usage { topic: UsageTopic::Size }
        } else {
            Directive::Size { files: tail_of(toks) }
        }
    } else if str_eq(c, "chmod") {
        Directive::Chmod
    } else if str_eq(c, "get") {
        if toks.len() < 2 {
            Directive::Usage { topic: UsageTopic::Get }
        } else if toks.len() == 2 {
            Directive::Get { remote: toks[1].clone(), local: toks[1].clone() }
        } else {
            Directive::Get { remote: toks[1].clone(), local: toks[2].clone() }
        }
    } else if str_eq(c, "put") {
        if toks.len() < 2 {
            Directive::Usage { topic: UsageTopic::Put }
        } else if toks.len() == 2 {
            Directive::Put { local: toks[1].clone(), remote: toks[1].clone() }
        } else {
            Directive::Put { local: toks[1].clone(), remote: toks[2].clone() }
        }
    } else if str_eq(c, "user") {
        if toks.len() < 2 {
            Directive::Usage { topic: UsageTopic::User }
        } else {
            Directive::User { name: toks[1].clone() }
        }
    } else if str_eq(c, "noop") {
        Directive::Noop
    } else if str_eq(c, "bye") || str_eq(c, "quit") || str_eq(c, "exit") {
        Directive::Quit
    } else if str_eq(c, "help") {
        if toks.len() < 2 {
            Directive::Help { topic: String::new() }
        } else {
            Directive::Help { topic: toks[1].clone() }
        }
    } else {
        Directive::Invalid
    }
}

/// The directive for one raw input line: an empty line (or a bare newline, or
/// a line of nothing but white space) keeps the connection alive, anything
/// else is tokenized and dispatched.
pub open spec fn spec_interpret(line: Seq<char>) -> SpecDirective {
    if line.len() == 0 || line == seq!['\n'] {
        SpecDirective::Noop
    } else {
        spec_parse_tokens(tokens_of(line))
    }
}

/// Maps one raw input line to the directive the client follows.
pub fn interpret_line(line: &str) -> (d: Directive)
    ensures
        d@ == spec_interpret(line@),
{
    if line.is_empty() {
        return Directive::Noop;
    }
    if str_eq(line, "\n") {
        proof {
            reveal_strlit("\n");
            assert(line@ =~= seq!['\n']);
        }
        return Directive::Noop;
    }
    proof {
        reveal_strlit("\n");
        if line@ == seq!['\n'] {
            assert(line@ =~= "\n"@);
        }
    }
    let toks = tokenize(line);
    parse_tokens(&toks)
}

/// Whether a sequence is a word: nonempty and free of white space.
pub open spec fn is_word(t: Seq<char>) -> bool {
    t.len() > 0 && (forall|j: int| 0 <= j < t.len() ==> !is_space_char(t[j]))
}

proof fn lemma_tokens_from_are_words(s: Seq<char>, i: int)
    requires
        0 <= i <= s.len(),
    ensures
        forall|k: int|
            0 <= k < tokens_from(s, i).len() ==> #[trigger] is_word(tokens_from(s, i)[k]),
    decreases s.len() - i,
{
    if i < s.len() {
        if is_space_char(s[i]) {
            lemma_tokens_from_are_words(s, i + 1);
            assert(tokens_from(s, i) == tokens_from(s, i + 1));
        } else {
            lemma_word_end_props(s, i);
            let we = word_end(s, i);
            let w = s.subrange(i, we);
            let rest = tokens_from(s, we);
            lemma_tokens_from_are_words(s, we);
            assert(is_word(w));
            assert forall|k: int| 0 <= k < tokens_from(s, i).len() implies #[trigger] is_word(
                tokens_from(s, i)[k],
            ) by {
                if k == 0 {
                    assert(tokens_from(s, i)[k] == w);
                } else {
                    assert(tokens_from(s, i)[k] == rest[k - 1]);
                }
            }
        }
    }
}

/// Every word that tokenization yields is nonempty and holds no white space.
pub proof fn lemma_tokens_are_words(s: Seq<char>)
    ensures
        forall|k: int| 0 <= k < tokens_of(s).len() ==> #[trigger] is_word(tokens_of(s)[k]),
{
    lemma_tokens_from_are_words(s, 0);
}

/// The prompt shown before each line: the remote directory in bold white, the
/// user in bold cyan and the host in bold blue.
pub open spec fn spec_prompt(pwd: Seq<char>, host: Seq<char>, user: Seq<char>) -> Seq<char> {
    "["@ + style::painted(seq!['1', ';', '3', '7'], pwd) + "]-("@ + style::painted(
        seq!['1', ';', '3', '6'],
        user,
    ) + "@"@ + style::painted(seq!['1', ';', '3', '4'], host) + ")> "@
}

/// Renders the prompt for the current directory, host and user.
pub fn render_prompt(pwd: &str, host: &str, user: &str) -> (r: String)
    ensures
        r@ == spec_prompt(pwd@, host@, user@),
{
    let mut r = String::from_str("[");
    r.append(style::white_bold(pwd).as_str());
    r.append("]-(");
    r.append(style::cyan_bold(user).as_str());
    r.append("@");
    r.append(style::blue_bold(host).as_str());
    r.append(")> ");
    proof {
        assert(r@ =~= spec_prompt(pwd@, host@, user@));
    }
    r
}

/// The red error line printed when a command lacks arguments.
pub open spec fn spec_usage_error(topic: UsageTopic) -> Seq<char> {
    match topic {
        UsageTopic::Cd => style::painted(seq!['3', '1'], "[-] Remote directory not specified"@),
        UsageTopic::Mkdir => style::painted(seq!['3', '1'], "[-] Target directory not specified"@),
        UsageTopic::Append => style::painted(
            seq!['3', '1'],
            "[-] Remote/LOCAL_FILE not specified properly"@,
        ),
        UsageTopic::Rm => style::painted(seq!['3', '1'], "[-] Target file(s) not specified"@),
        UsageTopic::Rmdir => style::painted(seq!['3', '1'], "[-] Target directory not specified"@),
        UsageTopic::Size => style::painted(seq!['3', '1'], "[-] Target file not specified"@),
        UsageTopic::Get => style::painted(seq!['3', '1'], "[-] Target file not specified"@),
        UsageTopic::Put => style::painted(seq!['3', '1'], "[-] Target file not specified"@),
        UsageTopic::User => style::painted(seq!['3', '1'], "[-] User not specified"@),
    }
}

/// A usage hint: the header in bold dim yellow, a colon, and the argument
/// pattern in dim yellow.
pub open spec fn spec_hint(header: Seq<char>, body: Seq<char>) -> Seq<char> {
    style::painted(seq!['1', ';', '2', ';', '3', '3'], header) + ": "@ + style::painted(
        seq!['2', ';', '3', '3'],
        body,
    )
}

/// The yellow usage line printed under the error line.
pub open spec fn spec_usage_hint(topic: UsageTopic) -> Seq<char> {
    match topic {
        UsageTopic::Cd => spec_hint("USAGE for cd|cwd"@, "cd|cwd REMOTE_DIR"@),
        UsageTopic::Mkdir => spec_hint("USAGE for mkdir"@, "mkdir REMOTE_DIR"@),
        UsageTopic::Append => spec_hint("USAGE for append"@, "append LOCAL_FILE REMOTE_FILE"@),
        UsageTopic::Rm => spec_hint("USAGE for delete|rm"@, "delete|rm REMOTE_FILES..."@),
        UsageTopic::Rmdir => spec_hint("USAGE for rmdir"@, "rmdir REMOTE_DIR"@),
        UsageTopic::Size => spec_hint("USAGE for size"@, "size REMOTE_FILES..."@),
        UsageTopic::Get => spec_hint("USAGE for get"@, "get REMOTE_FILE [LOCAL_FILE]"@),
        UsageTopic::Put => spec_hint("USAGE for put"@, "put LOCAL_FILE [REMOTE_FILE]"@),
        UsageTopic::User => spec_hint("USAGE for user"@, "user USER"@),
    }
}

fn hint_line(header: &str, body: &str) -> (r: String)
    ensures
        r@ == spec_hint(header@, body@),
{
    let mut r = style::yellow_dimmed_bold(header);
    r.append(": ");
    r.append(style::yellow_dimmed(body).as_str());
    proof {
        assert(r@ =~= spec_hint(header@, body@));
    }
    r
}

/// The two lines printed when a command is given too few arguments.
pub fn usage_lines(topic: UsageTopic) -> (r: (String, String))
    ensures
        r.0@ == spec_usage_error(topic),
        r.1@ == spec_usage_hint(topic),
{
    match topic {
        UsageTopic::Cd => (
            style::red("[-] Remote directory not specified"),
            hint_line("USAGE for cd|cwd", "cd|cwd REMOTE_DIR"),
        ),
        UsageTopic::Mkdir => (
            style::red("[-] Target directory not specified"),
            hint_line("USAGE for mkdir", "mkdir REMOTE_DIR"),
        ),
        UsageTopic::Append => (
            style::red("[-] Remote/LOCAL_FILE not specified properly"),
            hint_line("USAGE for append", "append LOCAL_FILE REMOTE_FILE"),
        ),
        UsageTopic::Rm => (
            style::red("[-] Target file(s) not specified"),
            hint_line("USAGE for delete|rm", "delete|rm REMOTE_FILES..."),
        ),
        UsageTopic::Rmdir => (
            style::red("[-] Target directory not specified"),
            hint_line("USAGE for rmdir", "rmdir REMOTE_DIR"),
        ),
        UsageTopic::Size => (
            style::red("[-] Target file not specified"),
            hint_line("USAGE for size", "size REMOTE_FILES..."),
        ),
        UsageTopic::Get => (
            style::red("[-] Target file not specified"),
            hint_line("USAGE for get", "get REMOTE_FILE [LOCAL_FILE]"),
        ),
        UsageTopic::Put => (
            style::red("[-] Target file not specified"),
            hint_line("USAGE for put", "put LOCAL_FILE [REMOTE_FILE]"),
        ),
        UsageTopic::User => (
            style::red("[-] User not specified"),
            hint_line("USAGE for user", "user USER"),
        ),
    }
}

/// The line printed for an unknown command.
pub fn invalid_command_line() -> (r: String)
    ensures
        r@ == style::painted(seq!['3', '1'], "[-] Invalid Command"@),
{
    style::red("[-] Invalid Command")
}

/// The bold white prompt asking for the password of a new user.
pub fn password_prompt() -> (r: String)
    ensures
        r@ == style::painted(seq!['1', ';', '3', '7'], "Enter passwords for user: "@),
{
    style::white_bold("Enter passwords for user: ")
}

/// The red line printed when a local file cannot be opened or created.
pub fn io_error_line(detail: &str) -> (r: String)
    ensures
        r@ == style::painted(seq!['3', '1'], "[-] "@ + detail@),
{
    let mut m = String::from_str("[-] ");
    m.append(detail);
    style::red(m.as_str())
}

} // verus!
