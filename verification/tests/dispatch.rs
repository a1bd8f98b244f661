use ftpcli::cli::prompt::interpret_line;
use ftpcli::cli::prompt::Directive;
use ftpcli::cli::prompt::UsageTopic;

#[test]
fn empty_line_is_noop() {
    assert_eq!(interpret_line(""), Directive::Noop);
    assert_eq!(interpret_line("\n"), Directive::Noop);
}

#[test]
fn blank_line_is_noop() {
    assert_eq!(interpret_line("   \n"), Directive::Noop);
    assert_eq!(interpret_line(" \t "), Directive::Noop);
}

#[test]
fn pwd_dispatch() {
    assert_eq!(interpret_line("pwd\n"), Directive::Pwd);
    assert_eq!(interpret_line("lpwd\n"), Directive::Lpwd);
}

#[test]
fn cd_dispatch() {
    assert_eq!(interpret_line("cd\n"), Directive::Usage { topic: UsageTopic::Cd });
    assert_eq!(interpret_line("cd /tmp\n"), Directive::Cwd { dir: "/tmp".to_string() });
    assert_eq!(interpret_line("cwd docs\n"), Directive::Cwd { dir: "docs".to_string() });
    assert_eq!(interpret_line("cwd a b\n"), Directive::Cwd { dir: "a".to_string() });
}

#[test]
fn cdup_dispatch() {
    assert_eq!(interpret_line("cdup\n"), Directive::Cdup);
}

#[test]
fn mkdir_dispatch() {
    assert_eq!(interpret_line("mkdir\n"), Directive::Usage { topic: UsageTopic::Mkdir });
    assert_eq!(interpret_line("mkdir new\n"), Directive::Mkdir { dir: "new".to_string() });
}

#[test]
fn ls_dispatch() {
    assert_eq!(interpret_line("ls\n"), Directive::Ls { target: ".".to_string() });
    assert_eq!(interpret_line("dir src\n"), Directive::Ls { target: "src".to_string() });
}

#[test]
fn append_dispatch() {
    assert_eq!(interpret_line("append\n"), Directive::Usage { topic: UsageTopic::Append });
    assert_eq!(interpret_line("append a\n"), Directive::Usage { topic: UsageTopic::Append });
    assert_eq!(
        interpret_line("append a b\n"),
        Directive::Append { local: "a".to_string(), remote: "b".to_string() }
    );
}

#[test]
fn rm_dispatch() {
    assert_eq!(interpret_line("rm\n"), Directive::Usage { topic: UsageTopic::Rm });
    assert_eq!(interpret_line("delete a\n"), Directive::Rm { files: vec!["a".to_string()] });
    assert_eq!(
        interpret_line("rm a b c\n"),
        Directive::Rm { files: vec!["a".to_string(), "b".to_string(), "c".to_string()] }
    );
}

#[test]
fn rmdir_dispatch() {
    assert_eq!(interpret_line("rmdir\n"), Directive::Usage { topic: UsageTopic::Rmdir });
    assert_eq!(interpret_line("rmdir d\n"), Directive::Rmdir { dir: "d".to_string() });
}

#[test]
fn size_dispatch() {
    assert_eq!(interpret_line("size\n"), Directive::Usage { topic: UsageTopic::Size });
    assert_eq!(
        interpret_line("size f g\n"),
        Directive::Size { files: vec!["f".to_string(), "g".to_string()] }
    );
}

#[test]
fn chmod_dispatch() {
    assert_eq!(interpret_line("chmod\n"), Directive::Chmod);
    assert_eq!(interpret_line("chmod 755 f\n"), Directive::Chmod);
}

#[test]
fn get_dispatch() {
    assert_eq!(interpret_line("get\n"), Directive::Usage { topic: UsageTopic::Get });
    assert_eq!(
        interpret_line("get f\n"),
        Directive::Get { remote: "f".to_string(), local: "f".to_string() }
    );
    assert_eq!(
        interpret_line("get f l\n"),
        Directive::Get { remote: "f".to_string(), local: "l".to_string() }
    );
}

#[test]
fn put_dispatch() {
    assert_eq!(interpret_line("put\n"), Directive::Usage { topic: UsageTopic::Put });
    assert_eq!(
        interpret_line("put f\n"),
        Directive::Put { local: "f".to_string(), remote: "f".to_string() }
    );
    assert_eq!(
        interpret_line("put f r\n"),
        Directive::Put { local: "f".to_string(), remote: "r".to_string() }
    );
}

#[test]
fn user_dispatch() {
    assert_eq!(interpret_line("user\n"), Directive::Usage { topic: UsageTopic::User });
    assert_eq!(interpret_line("user bob\n"), Directive::User { name: "bob".to_string() });
}

#[test]
fn noop_dispatch() {
    assert_eq!(interpret_line("noop\n"), Directive::Noop);
}

#[test]
fn quit_dispatch() {
    assert_eq!(interpret_line("bye\n"), Directive::Quit);
    assert_eq!(interpret_line("quit\n"), Directive::Quit);
    assert_eq!(interpret_line("exit\n"), Directive::Quit);
    assert_eq!(interpret_line("exit \n"), Directive::Quit);
}

#[test]
fn help_dispatch() {
    assert_eq!(interpret_line("help\n"), Directive::Help { topic: String::new() });
    assert_eq!(interpret_line("help get\n"), Directive::Help { topic: "get".to_string() });
}

#[test]
fn unknown_command_is_invalid() {
    assert_eq!(interpret_line("frobnicate\n"), Directive::Invalid);
    assert_eq!(interpret_line("PWD\n"), Directive::Invalid);
}
