use ansi_term::Color;
use ftpcli::cli::prompt::invalid_command_line;
use ftpcli::cli::prompt::io_error_line;
use ftpcli::cli::prompt::password_prompt;
use ftpcli::cli::prompt::render_prompt;
use ftpcli::cli::prompt::usage_lines;
use ftpcli::cli::prompt::UsageTopic;
use ftpcli::ftp_handler::commands::append_line;
use ftpcli::ftp_handler::commands::available_commands_text;
use ftpcli::ftp_handler::commands::cwd_line;
use ftpcli::ftp_handler::commands::error_line;
use ftpcli::ftp_handler::commands::help;
use ftpcli::ftp_handler::commands::lpwd_line;
use ftpcli::ftp_handler::commands::ls_header_line;
use ftpcli::ftp_handler::commands::mkdir_success_line;
use ftpcli::ftp_handler::commands::put_line;
use ftpcli::ftp_handler::commands::pwd_line;
use ftpcli::ftp_handler::commands::rm_success_line;
use ftpcli::ftp_handler::commands::size_line;
use ftpcli::style;

#[test]
fn styles_match_ansi_term() {
    assert_eq!(style::red("x"), Color::Red.paint("x").to_string());
    assert_eq!(style::green("x"), Color::Green.paint("x").to_string());
    assert_eq!(style::white("x"), Color::White.paint("x").to_string());
    assert_eq!(style::white_bold("x"), Color::White.bold().paint("x").to_string());
    assert_eq!(style::white_dimmed("x"), Color::White.dimmed().paint("x").to_string());
    assert_eq!(style::cyan_bold("x"), Color::Cyan.bold().paint("x").to_string());
    assert_eq!(style::blue_bold("x"), Color::Blue.bold().paint("x").to_string());
    assert_eq!(style::yellow_dimmed("x"), Color::Yellow.dimmed().paint("x").to_string());
    assert_eq!(style::green_dimmed("x"), Color::Green.dimmed().paint("x").to_string());
    assert_eq!(
        style::yellow_dimmed_bold("x"),
        Color::Yellow.dimmed().bold().paint("x").to_string()
    );
    assert_eq!(
        style::green_bold_dimmed("x"),
        Color::Green.bold().dimmed().paint("x").to_string()
    );
}

#[test]
fn paint_is_the_sgr_wrapping() {
    assert_eq!(style::paint("31", "hi"), "\u{1b}[31mhi\u{1b}[0m");
    assert_eq!(style::white_bold("hi"), "\u{1b}[1;37mhi\u{1b}[0m");
}

#[test]
fn prompt_format() {
    let expected = format!(
        "[{}]-({}@{})> ",
        Color::White.bold().paint("/srv"),
        Color::Cyan.bold().paint("anonymous"),
        Color::Blue.bold().paint("ftp.example.org"),
    );
    assert_eq!(render_prompt("/srv", "ftp.example.org", "anonymous"), expected);
}

#[test]
fn pwd_and_cwd_lines() {
    assert_eq!(
        pwd_line("/srv"),
        format!(
            "{}: {}",
            Color::White.dimmed().paint("Remote directory"),
            Color::Green.bold().dimmed().paint("/srv")
        )
    );
    assert_eq!(
        cwd_line("docs"),
        format!(
            "{}: {}",
            Color::White.dimmed().paint("Changed to"),
            Color::Green.bold().dimmed().paint("docs")
        )
    );
}

#[test]
fn lpwd_and_ls_lines() {
    assert_eq!(
        lpwd_line("/home/me"),
        format!("Local Directory: {}", Color::Green.dimmed().paint("/home/me"))
    );
    assert_eq!(
        ls_header_line("."),
        format!("Listing directory: {}", Color::Blue.bold().paint("."))
    );
}

#[test]
fn success_lines() {
    assert_eq!(mkdir_success_line(), Color::Green.paint("[+]: Success!").to_string());
    assert_eq!(rm_success_line(), Color::Green.paint("[+] Success").to_string());
}

#[test]
fn byte_count_lines() {
    assert_eq!(append_line(0), Color::White.paint("0").to_string());
    assert_eq!(append_line(4096), Color::White.paint("4096").to_string());
    assert_eq!(put_line(456), "Wrote 456 bytes");
}

#[test]
fn size_line_format() {
    assert_eq!(
        size_line("notes.txt", 123),
        format!("Size of {}: {}", Color::Yellow.dimmed().paint("notes.txt"), 123)
    );
}

#[test]
fn error_lines() {
    assert_eq!(
        error_line("connection refused"),
        Color::Red.paint("[-]: connection refused").to_string()
    );
    assert_eq!(
        io_error_line("No such file or directory (os error 2)"),
        Color::Red.paint("[-] No such file or directory (os error 2)").to_string()
    );
    assert_eq!(invalid_command_line(), Color::Red.paint("[-] Invalid Command").to_string());
}

#[test]
fn password_prompt_text() {
    assert_eq!(
        password_prompt(),
        Color::White.bold().paint("Enter passwords for user: ").to_string()
    );
}

#[test]
fn usage_lines_for_cd() {
    let (err, hint) = usage_lines(UsageTopic::Cd);
    assert_eq!(err, Color::Red.paint("[-] Remote directory not specified").to_string());
    assert_eq!(
        hint,
        format!(
            "{}: {}",
            Color::Yellow.dimmed().bold().paint("USAGE for cd|cwd"),
            Color::Yellow.dimmed().paint("cd|cwd REMOTE_DIR")
        )
    );
}

#[test]
fn usage_lines_for_append_and_put() {
    let (err, hint) = usage_lines(UsageTopic::Append);
    assert_eq!(err, Color::Red.paint("[-] Remote/LOCAL_FILE not specified properly").to_string());
    assert_eq!(
        hint,
        format!(
            "{}: {}",
            Color::Yellow.dimmed().bold().paint("USAGE for append"),
            Color::Yellow.dimmed().paint("append LOCAL_FILE REMOTE_FILE")
        )
    );
    let (err, hint) = usage_lines(UsageTopic::Put);
    assert_eq!(err, Color::Red.paint("[-] Target file not specified").to_string());
    assert_eq!(
        hint,
        format!(
            "{}: {}",
            Color::Yellow.dimmed().bold().paint("USAGE for put"),
            Color::Yellow.dimmed().paint("put LOCAL_FILE [REMOTE_FILE]")
        )
    );
}

#[test]
fn help_for_known_topics() {
    assert_eq!(
        help("mkdir"),
        format!(
            "USAGE:\n\t {} REMOTE_DIR\nMake a directory on the remote machine\n",
            Color::White.bold().paint("mkdir")
        )
    );
    assert_eq!(
        help("cd"),
        format!(
            "USAGE:\n\t {} REMOTE_DIR\nChange the working directory on the remote machine to remote-directory\n",
            Color::White.bold().paint("cd|cwd")
        )
    );
    assert_eq!(
        help("bye"),
        format!(
            "USAGE:\n\t {}\nCloses off the FTP stream and exits the program\n",
            Color::White.bold().paint("bye|quit|exit")
        )
    );
    assert_eq!(help("exit"), help("bye"));
    assert_eq!(help("quit"), help("bye"));
}

#[test]
fn help_for_empty_topic_is_empty() {
    assert_eq!(help(""), "");
}

#[test]
fn help_for_unknown_topic() {
    assert_eq!(
        help("zzz"),
        format!(
            "[-] Commnad: zzz not recognized\nUse the {} command for more information\n",
            Color::White.bold().paint("help")
        )
    );
}

#[test]
fn available_commands_table() {
    let commands = [
        "cd|cwd",
        "put",
        "get",
        "pwd",
        "ls|dir",
        "bye|exit|quit",
        "noop",
        "user",
        "size",
        "mkdir",
        "rmdir",
        "delete|rm",
        "append",
        "cdup",
        "lpwd",
        "help",
    ];
    let mut expected = String::new();
    for (i, c) in commands.iter().enumerate() {
        if i % 4 == 0 {
            expected.push('\n');
        }
        expected.push_str(&Color::White.bold().paint(*c).to_string());
        expected.push('\t');
    }
    expected.push('\n');
    assert_eq!(available_commands_text(), expected);
}

#[test]
fn help_for_help_lists_commands() {
    let expected = format!(
        "USAGE:\n\t {} [COMMAND]\n{}",
        Color::White.bold().paint("help"),
        available_commands_text()
    );
    assert_eq!(help("help"), expected);
}
