use ftpcli::cli;
use ftpcli::cli::parsing;
use ftpcli::cli::ArgsError;

fn words(items: &[&str]) -> Vec<String> {
    items.iter().map(|s| s.to_string()).collect()
}

#[test]
fn parsing_host_only_defaults() {
    let args = parsing::init(&words(&["example.com"])).unwrap();
    assert_eq!(args.host, "example.com");
    assert_eq!(args.port, 21);
    assert!(!args.tls);
    assert_eq!(args.username, "anonymous");
    assert_eq!(args.password, "");
}

#[test]
fn parsing_all_options() {
    let args =
        parsing::init(&words(&["ftp.example.org", "-p", "2121", "--tls", "-U", "alice", "-P", "pw"]))
            .unwrap();
    assert_eq!(args.host, "ftp.example.org");
    assert_eq!(args.port, 2121);
    assert!(args.tls);
    assert_eq!(args.username, "alice");
    assert_eq!(args.password, "pw");
}

#[test]
fn parsing_equals_forms() {
    let args = parsing::init(&words(&["--port=990", "--username=carol", "--password=s", "h"]))
        .unwrap();
    assert_eq!(args.host, "h");
    assert_eq!(args.port, 990);
    assert_eq!(args.username, "carol");
    assert_eq!(args.password, "s");
}

#[test]
fn parsing_signed_port_value() {
    let args = parsing::init(&words(&["h", "--port", "+2121"])).unwrap();
    assert_eq!(args.port, 2121);
}

#[test]
fn parsing_missing_host() {
    assert_eq!(parsing::init(&words(&[])), Err(ArgsError::MissingHost));
    assert_eq!(parsing::init(&words(&["--tls"])), Err(ArgsError::MissingHost));
}

#[test]
fn parsing_unexpected_argument() {
    assert_eq!(
        parsing::init(&words(&["h", "extra"])),
        Err(ArgsError::UnexpectedArgument { arg: "extra".to_string() })
    );
}

#[test]
fn parsing_unknown_option() {
    assert_eq!(
        parsing::init(&words(&["--bogus", "h"])),
        Err(ArgsError::UnknownOption { arg: "--bogus".to_string() })
    );
}

#[test]
fn parsing_missing_value() {
    assert_eq!(
        parsing::init(&words(&["h", "-p"])),
        Err(ArgsError::MissingValue { option: "-p".to_string() })
    );
}

#[test]
fn parsing_invalid_port() {
    assert_eq!(
        parsing::init(&words(&["h", "--port", "70000"])),
        Err(ArgsError::InvalidValue { option: "--port".to_string(), value: "70000".to_string() })
    );
    assert_eq!(
        parsing::init(&words(&["h", "--port=12x"])),
        Err(ArgsError::InvalidValue { option: "--port".to_string(), value: "12x".to_string() })
    );
}

#[test]
fn parsing_help_and_version() {
    assert_eq!(parsing::init(&words(&["--help"])), Err(ArgsError::HelpRequested));
    assert_eq!(parsing::init(&words(&["-h"])), Err(ArgsError::HelpRequested));
    assert_eq!(parsing::init(&words(&["--version"])), Err(ArgsError::VersionRequested));
    assert_eq!(parsing::init(&words(&["-V"])), Err(ArgsError::VersionRequested));
}

#[test]
fn parsing_double_dash_makes_positional() {
    let args = parsing::init(&words(&["--", "--tls"])).unwrap();
    assert_eq!(args.host, "--tls");
    assert!(!args.tls);
}

#[test]
fn parsing_last_value_wins() {
    let args = parsing::init(&words(&["-U", "a", "-U", "b", "h"])).unwrap();
    assert_eq!(args.username, "b");
}

#[test]
fn parsing_attached_short_values() {
    let args = parsing::init(&words(&["h", "-p2121"])).unwrap();
    assert_eq!(args.port, 2121);
    let args = parsing::init(&words(&["h", "-p=21"])).unwrap();
    assert_eq!(args.port, 21);
    let args = parsing::init(&words(&["-Ualice", "-P=s3cr3t", "h"])).unwrap();
    assert_eq!(args.username, "alice");
    assert_eq!(args.password, "s3cr3t");
    assert_eq!(
        parsing::init(&words(&["h", "-px"])),
        Err(ArgsError::InvalidValue { option: "-p".to_string(), value: "x".to_string() })
    );
}

#[test]
fn cli_attached_short_port() {
    let args = cli::init(&words(&["h", "-p99"])).unwrap();
    assert_eq!(args.port, 99);
}

#[test]
fn parsing_lone_dash_is_positional() {
    let args = parsing::init(&words(&["-"])).unwrap();
    assert_eq!(args.host, "-");
}

#[test]
fn cli_host_only_defaults() {
    let args = cli::init(&words(&["example.com"])).unwrap();
    assert_eq!(args.host, "example.com");
    assert_eq!(args.port, 21);
    assert!(!args.openssl);
}

#[test]
fn cli_openssl_and_port() {
    let args = cli::init(&words(&["h", "--openssl", "-p", "255"])).unwrap();
    assert!(args.openssl);
    assert_eq!(args.port, 255);
}

#[test]
fn cli_port_out_of_range() {
    assert_eq!(
        cli::init(&words(&["h", "-p", "256"])),
        Err(ArgsError::InvalidValue { option: "-p".to_string(), value: "256".to_string() })
    );
}

#[test]
fn cli_port_equals_form() {
    let args = cli::init(&words(&["h", "--port=80"])).unwrap();
    assert_eq!(args.port, 80);
}

#[test]
fn cli_tls_is_unknown_here() {
    assert_eq!(
        cli::init(&words(&["h", "--tls"])),
        Err(ArgsError::UnknownOption { arg: "--tls".to_string() })
    );
}
