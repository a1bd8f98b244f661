//! The lines the client prints for each command's outcome, and the help text.

use crate::style;
use crate::text::dec_rep;
use crate::text::str_eq;
use crate::text::u64_to_dec;
use crate::text::usize_to_dec;
use vstd::prelude::*;
use vstd::string::StringExecFns;

verus! {

/// A dim white label, a colon, and a value in bold dim green.
pub open spec fn spec_labeled(label: Seq<char>, value: Seq<char>) -> Seq<char> {
    style::painted(seq!['2', ';', '3', '7'], label) + ": "@ + style::painted(
        seq!['1', ';', '2', ';', '3', '2'],
        value,
    )
}

fn labeled_line(label: &str, value: &str) -> (r: String)
    ensures
        r@ == spec_labeled(label@, value@),
{
    let mut r = style::white_dimmed(label);
    r.append(": ");
    r.append(style::green_bold_dimmed(value).as_str());
    proof {
        assert(r@ =~= spec_labeled(label@, value@));
    }
    r
}

/// The line printed when the remote working directory is reported.
pub fn pwd_line(dir: &str) -> (r: String)
    ensures
        r@ == spec_labeled("Remote directory"@, dir@),
{
    labeled_line("Remote directory", dir)
}

/// The line printed after changing the remote working directory.
pub fn cwd_line(dir: &str) -> (r: String)
    ensures
        r@ == spec_labeled("Changed to"@, dir@),
{
    labeled_line("Changed to", dir)
}

/// The line printed for the local working directory.
pub fn lpwd_line(dir: &str) -> (r: String)
    ensures
        r@ == "Local Directory: "@ + style::painted(seq!['2', ';', '3', '2'], dir@),
{
    let mut r = String::from_str("Local Directory: ");
    r.append(style::green_dimmed(dir).as_str());
    r
}

/// The header printed above a directory listing.
pub fn ls_header_line(dir: &str) -> (r: String)
    ensures
        r@ == "Listing directory: "@ + style::painted(seq!['1', ';', '3', '4'], dir@),
{
    let mut r = String::from_str("Listing directory: ");
    r.append(style::blue_bold(dir).as_str());
    r
}

/// The line printed after a directory was created.
pub fn mkdir_success_line() -> (r: String)
    ensures
        r@ == style::painted(seq!['3', '2'], "[+]: Success!"@),
{
    style::green("[+]: Success!")
}

/// The line printed after a file or directory was deleted.
pub fn rm_success_line() -> (r: String)
    ensures
        r@ == style::painted(seq!['3', '2'], "[+] Success"@),
{
    style::green("[+] Success")
}

/// The line printed after an append: the number of bytes written, in white.
pub fn append_line(bytes: u64) -> (r: String)
    ensures
        r@ == style::painted(seq!['3', '7'], dec_rep(bytes as nat)),
{
    style::white(u64_to_dec(bytes).as_str())
}

/// The line printed for the size of a remote file.
pub fn size_line(file: &str, size: usize) -> (r: String)
    ensures
        r@ == "Size of "@ + style::painted(seq!['2', ';', '3', '3'], file@) + ": "@ + dec_rep(
            size as nat,
        ),
{
    let mut r = String::from_str("Size of ");
    r.append(style::yellow_dimmed(file).as_str());
    r.append(": ");
    r.append(usize_to_dec(size).as_str());
    r
}

/// The line printed after an upload.
pub fn put_line(bytes: u64) -> (r: String)
    ensures
        r@ == "Wrote "@ + dec_rep(bytes as nat) + " bytes"@,
{
    let mut r = String::from_str("Wrote ");
    r.append(u64_to_dec(bytes).as_str());
    r.append(" bytes");
    r
}

/// The red line printed when an FTP operation fails, around the error's own
/// description.
pub fn error_line(detail: &str) -> (r: String)
    ensures
        r@ == style::painted(seq!['3', '1'], "[-]: "@ + detail@),
{
    let mut m = String::from_str("[-]: ");
    m.append(detail);
    style::red(m.as_str())
}

/// A usage heading: the command name in bold white after `USAGE:`, an
/// argument pattern after it, and a line break.
pub open spec fn spec_usage_block(name: Seq<char>, args: Seq<char>) -> Seq<char> {
    "USAGE:\n\t "@ + style::painted(seq!['1', ';', '3', '7'], name) + args + seq!['\n']
}

fn usage_block(name: &str, args: &str) -> (r: String)
    ensures
        r@ == spec_usage_block(name@, args@),
{
    let mut r = String::from_str("USAGE:\n\t ");
    r.append(style::white_bold(name).as_str());
    r.append(args);
    r.append("\n");
    proof {
        reveal_strlit("\n");
        assert(r@ =~= spec_usage_block(name@, args@));
    }
    r
}

/// A usage heading followed by a one-line description.
pub open spec fn spec_topic_help(name: Seq<char>, args: Seq<char>, desc: Seq<char>) -> Seq<char> {
    spec_usage_block(name, args) + desc + seq!['\n']
}

fn topic_help(name: &str, args: &str, desc: &str) -> (r: String)
    ensures
        r@ == spec_topic_help(name@, args@, desc@),
{
    let mut r = usage_block(name, args);
    r.append(desc);
    r.append("\n");
    proof {
        reveal_strlit("\n");
        assert(r@ =~= spec_topic_help(name@, args@, desc@));
    }
    r
}

/// One entry of the command table: the name in bold white and a tab.
pub open spec fn spec_cmd_entry(name: Seq<char>) -> Seq<char> {
    style::painted(seq!['1', ';', '3', '7'], name) + seq!['\t']
}

fn push_cmd_entry(r: &mut String, name: &str)
    ensures
        final(r)@ == old(r)@ + spec_cmd_entry(name@),
{
    r.append(style::white_bold(name).as_str());
    r.append("\t");
    proof {
        reveal_strlit("\t");
        assert(final(r)@ =~= old(r)@ + spec_cmd_entry(name@));
    }
}

/// The table of available commands, four to a row, each followed by a tab,
/// with a blank line before the first row.
pub open spec fn spec_available_commands() -> Seq<char> {
    seq!['\n'] + spec_cmd_entry("cd|cwd"@) + spec_cmd_entry("put"@) + spec_cmd_entry("get"@)
        + spec_cmd_entry("pwd"@) + seq!['\n'] + spec_cmd_entry("ls|dir"@) + spec_cmd_entry(
        "bye|exit|quit"@,
    ) + spec_cmd_entry("noop"@) + spec_cmd_entry("user"@) + seq!['\n'] + spec_cmd_entry("size"@)
        + spec_cmd_entry("mkdir"@) + spec_cmd_entry("rmdir"@) + spec_cmd_entry("delete|rm"@)
        + seq!['\n'] + spec_cmd_entry("append"@) + spec_cmd_entry("cdup"@) + spec_cmd_entry(
        "lpwd"@,
    ) + spec_cmd_entry("help"@) + seq!['\n']
}

/// Renders the table of available commands.
pub fn available_commands_text() -> (r: String)
    ensures
        r@ == spec_available_commands(),
{
    let mut r = String::from_str("\n");
    push_cmd_entry(&mut r, "cd|cwd");
    push_cmd_entry(&mut r, "put");
    push_cmd_entry(&mut r, "get");
    push_cmd_entry(&mut r, "pwd");
    r.append("\n");
    push_cmd_entry(&mut r, "ls|dir");
    push_cmd_entry(&mut r, "bye|exit|quit");
    push_cmd_entry(&mut r, "noop");
    push_cmd_entry(&mut r, "user");
    r.append("\n");
    push_cmd_entry(&mut r, "size");
    push_cmd_entry(&mut r, "mkdir");
    push_cmd_entry(&mut r, "rmdir");
    push_cmd_entry(&mut r, "delete|rm");
    r.append("\n");
    push_cmd_entry(&mut r, "append");
    push_cmd_entry(&mut r, "cdup");
    push_cmd_entry(&mut r, "lpwd");
    push_cmd_entry(&mut r, "help");
    r.append("\n");
    proof {
        reveal_strlit("\n");
        assert(r@ =~= spec_available_commands());
    }
    r
}

/// The help text for one topic: a usage heading and a description for each
/// known command, the command table for `help` itself, a pointer to `help`
/// for an unknown topic, and nothing for an empty one.
pub open spec fn spec_help_text(cmd: Seq<char>) -> Seq<char> {
    if cmd.len() == 0 {
        Seq::empty()
    } else if cmd == "pwd"@ {
        spec_topic_help(
            "pwd"@,
            ""@,
            "Print the name of the current working directory on the remote machine"@,
        )
    } else if cmd == "lpwd"@ {
        spec_topic_help("lpwd"@, ""@, "Print the working directory on the local machine"@)
    } else if cmd == "cd"@ || cmd == "cwd"@ {
        spec_topic_help(
            "cd|cwd"@,
            " REMOTE_DIR"@,
            "Change the working directory on the remote machine to remote-directory"@,
        )
    } else if cmd == "mkdir"@ {
        spec_topic_help("mkdir"@, " REMOTE_DIR"@, "Make a directory on the remote machine"@)
    } else if cmd == "cdup"@ {
        spec_topic_help(
            "cdup"@,
            ""@,
            "Move up one directory. This is equivalent to executing 'cd ..'"@,
        )
    } else if cmd == "ls"@ || cmd == "dir"@ {
        spec_topic_help(
            "ls|dir"@,
            " [REMOTE_DIR|REMOTE_FILE]"@,
            "Print a listing of the contents of a directory on the remote machine. Regardless of the argument being a file or directory, human readable listing is printed"@,
        )
    } else if cmd == "append"@ {
        spec_topic_help(
            "append"@,
            " LOCAL_FILE REMOTE_FILE"@,
            "Append a LOCAL_FILE a file on the remote machine.  If REMOTE_FILE is left unspecified, the LOCAL_FILE name is used in naming the remote file"@,
        )
    } else if cmd == "delete"@ || cmd == "rm"@ {
        spec_topic_help("delete|rm"@, " REMOTE_FILES..."@, "Delete files on the remote machine"@)
    } else if cmd == "rmdir"@ {
        spec_topic_help("rmdir"@, " REMOTE_DIR"@, "Delete a directory on the remote machine"@)
    } else if cmd == "size"@ {
        spec_topic_help("size"@, " REMOTE_FILES..."@, "Return size of REMOTE_FILE on remote machine"@)
    } else if cmd == "get"@ {
        spec_topic_help(
            "get"@,
            " REMOTE_FILE [LOCAL_FILE]"@,
            "Retrieve the REMOTE_FILE and store it on the local machine.  If the LOCAL_FILE name is not specified, it is given the same name it has on the remote machine"@,
        )
    } else if cmd == "put"@ {
        spec_topic_help(
            "put"@,
            " LOCAL_FILE [REMOTE_FILE]"@,
            "Store a LOCAL_FILE on the remote machine.  If REMOTE_FILE is left unspecified then the name of LOCAL_FILE is used"@,
        )
    } else if cmd == "user"@ {
        spec_topic_help("user"@, " USER"@, "Login as the specified USER"@)
    } else if cmd == "noop"@ {
        spec_topic_help(
            "noop"@,
            ""@,
            "Does nothing, this is usually used to keep the FTP connection open"@,
        )
    } else if cmd == "bye"@ || cmd == "quit"@ || cmd == "exit"@ {
        spec_topic_help("bye|quit|exit"@, ""@, "Closes off the FTP stream and exits the program"@)
    } else if cmd == "help"@ {
        spec_usage_block("help"@, " [COMMAND]"@) + spec_available_commands()
    } else {
        "[-] Commnad: "@ + cmd + " not recognized\n"@ + "Use the "@ + style::painted(
            seq!['1', ';', '3', '7'],
            "help"@,
        ) + " command for more information\n"@
    }
}

/// Renders the help text for a topic.
pub fn help(cmd: &str) -> (r: String)
    ensures
        r@ == spec_help_text(cmd@),
{
    if cmd.is_empty() {
        let r = String::new();
        proof {
            assert(r@ =~= spec_help_text(cmd@));
        }
        return r;
    }
    if str_eq(cmd, "pwd") {
        topic_help("pwd", "", "Print the name of the current working directory on the remote machine")
    } else if str_eq(cmd, "lpwd") {
        topic_help("lpwd", "", "Print the working directory on the local machine")
    } else if str_eq(cmd, "cd") || str_eq(cmd, "cwd") {
        topic_help(
            "cd|cwd",
            " REMOTE_DIR",
            "Change the working directory on the remote machine to remote-directory",
        )
    } else if str_eq(cmd, "mkdir") {
        topic_help("mkdir", " REMOTE_DIR", "Make a directory on the remote machine")
    } else if str_eq(cmd, "cdup") {
        topic_help("cdup", "", "Move up one directory. This is equivalent to executing 'cd ..'")
    } else if str_eq(cmd, "ls") || str_eq(cmd, "dir") {
        topic_help(
            "ls|dir",
            " [REMOTE_DIR|REMOTE_FILE]",
            "Print a listing of the contents of a directory on the remote machine. Regardless of the argument being a file or directory, human readable listing is printed",
        )
    } else if str_eq(cmd, "append") {
        topic_help(
            "append",
            " LOCAL_FILE REMOTE_FILE",
            "Append a LOCAL_FILE a file on the remote machine.  If REMOTE_FILE is left unspecified, the LOCAL_FILE name is used in naming the remote file",
        )
    } else if str_eq(cmd, "delete") || str_eq(cmd, "rm") {
        topic_help("delete|rm", " REMOTE_FILES...", "Delete files on the remote machine")
    } else if str_eq(cmd, "rmdir") {
        topic_help("rmdir", " REMOTE_DIR", "Delete a directory on the remote machine")
    } else if str_eq(cmd, "size") {
        topic_help("size", " REMOTE_FILES...", "Return size of REMOTE_FILE on remote machine")
    } else if str_eq(cmd, "get") {
        topic_help(
            "get",
            " REMOTE_FILE [LOCAL_FILE]",
            "Retrieve the REMOTE_FILE and store it on the local machine.  If the LOCAL_FILE name is not specified, it is given the same name it has on the remote machine",
        )
    } else if str_eq(cmd, "put") {
        topic_help(
            "put",
            " LOCAL_FILE [REMOTE_FILE]",
            "Store a LOCAL_FILE on the remote machine.  If REMOTE_FILE is left unspecified then the name of LOCAL_FILE is used",
        )
    } else if str_eq(cmd, "user") {
        topic_help("user", " USER", "Login as the specified USER")
    } else if str_eq(cmd, "noop") {
        topic_help("noop", "", "Does nothing, this is usually used to keep the FTP connection open")
    } else if str_eq(cmd, "bye") || str_eq(cmd, "quit") || str_eq(cmd, "exit") {
        topic_help("bye|quit|exit", "", "Closes off the FTP stream and exits the program")
    } else if str_eq(cmd, "help") {
        let mut r = usage_block("help", " [COMMAND]");
        r.append(available_commands_text().as_str());
        r
    } else {
        let mut r = String::from_str("[-] Commnad: ");
        r.append(cmd);
        r.append(" not recognized\n");
        r.append("Use the ");
        r.append(style::white_bold("help").as_str());
        r.append(" command for more information\n");
        proof {
            assert(r@ =~= spec_help_text(cmd@));
        }
        r
    }
}

} // verus!
