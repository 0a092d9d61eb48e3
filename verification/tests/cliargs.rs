//! Tests for command-line argument parsing.

use litemon::args::ArgsError;
use litemon::args::CliArgs;

fn args(v: &[&str]) -> Vec<String> {
    v.iter().map(|s| s.to_string()).collect()
}

#[test]
fn parse_args_default() {
    let args = CliArgs::from_args(&args(&["litemon"])).unwrap();
    assert_eq!(args, CliArgs::default());
}

#[test]
fn parse_args_short() {
    let args = CliArgs::from_args(&args(&[
        "litemon",
        "-n",
        "localhost",
        "-P",
        "1234",
        "test/config.kdl",
    ]))
    .unwrap();
    let CliArgs {
        listen_address,
        listen_port,
        config_path,
    } = args;
    assert_eq!(listen_address, "localhost");
    assert_eq!(listen_port, 1234);
    assert_eq!(config_path, "test/config.kdl");
}

#[test]
fn parse_args_long() {
    let args = CliArgs::from_args(&args(&[
        "litemon",
        "--listen",
        "localhost",
        "--port",
        "1234",
        "test/config.kdl",
    ]))
    .unwrap();
    let CliArgs {
        listen_address,
        listen_port,
        config_path,
    } = args;
    assert_eq!(listen_address, "localhost");
    assert_eq!(listen_port, 1234);
    assert_eq!(config_path, "test/config.kdl");
}

#[test]
fn parse_args_help_and_version() {
    assert_eq!(
        CliArgs::from_args(&args(&["litemon", "-h"])),
        Err(ArgsError::HelpRequested)
    );
    assert_eq!(
        CliArgs::from_args(&args(&["litemon", "--help"])),
        Err(ArgsError::HelpRequested)
    );
    assert_eq!(
        CliArgs::from_args(&args(&["litemon", "-V"])),
        Err(ArgsError::VersionRequested)
    );
    assert_eq!(
        CliArgs::from_args(&args(&["litemon", "--version"])),
        Err(ArgsError::VersionRequested)
    );
}

#[test]
fn parse_args_errors() {
    assert_eq!(
        CliArgs::from_args(&args(&["litemon", "--listen"])),
        Err(ArgsError::MissingValue("--listen".to_string()))
    );
    assert_eq!(
        CliArgs::from_args(&args(&["litemon", "-P", "70000"])),
        Err(ArgsError::InvalidPort("70000".to_string()))
    );
    assert_eq!(
        CliArgs::from_args(&args(&["litemon", "-P", "12x"])),
        Err(ArgsError::InvalidPort("12x".to_string()))
    );
    assert_eq!(
        CliArgs::from_args(&args(&["litemon", "--bogus"])),
        Err(ArgsError::UnexpectedArgument("--bogus".to_string()))
    );
}

#[test]
fn parse_args_equals_forms() {
    let parsed = CliArgs::from_args(&args(&[
        "litemon",
        "--listen=localhost",
        "--port=1234",
        "test/config.kdl",
    ]))
    .unwrap();
    assert_eq!(parsed.listen_address, "localhost");
    assert_eq!(parsed.listen_port, 1234);
    assert_eq!(parsed.config_path, "test/config.kdl");
    assert_eq!(
        CliArgs::from_args(&args(&["litemon", "--port=70000"])),
        Err(ArgsError::InvalidPort("70000".to_string()))
    );
    assert_eq!(
        CliArgs::from_args(&args(&["litemon", "--port="])),
        Err(ArgsError::InvalidPort("".to_string()))
    );
}

#[test]
fn parse_args_attached_short_values() {
    let parsed = CliArgs::from_args(&args(&["litemon", "-nlocalhost", "-P1234"])).unwrap();
    assert_eq!(parsed.listen_address, "localhost");
    assert_eq!(parsed.listen_port, 1234);
    // help and version win as the first letter of a cluster
    assert_eq!(
        CliArgs::from_args(&args(&["litemon", "-hx"])),
        Err(ArgsError::HelpRequested)
    );
    assert_eq!(
        CliArgs::from_args(&args(&["litemon", "-Vx"])),
        Err(ArgsError::VersionRequested)
    );
    // an unknown short option is still rejected
    assert_eq!(
        CliArgs::from_args(&args(&["litemon", "-x"])),
        Err(ArgsError::UnexpectedArgument("-x".to_string()))
    );
}

#[test]
fn parse_args_double_dash_ends_options() {
    let parsed = CliArgs::from_args(&args(&["litemon", "--", "-n"])).unwrap();
    assert_eq!(parsed.config_path, "-n");
    assert_eq!(parsed.listen_address, "127.0.0.1");
    let parsed = CliArgs::from_args(&args(&["litemon", "-n", "host", "--", "a", "b"])).unwrap();
    assert_eq!(parsed.listen_address, "host");
    assert_eq!(parsed.config_path, "b");
}

#[test]
fn parse_args_positional_last_wins() {
    let parsed = CliArgs::from_args(&args(&["litemon", "a.kdl", "b.kdl"])).unwrap();
    assert_eq!(parsed.config_path, "b.kdl");
    assert_eq!(parsed.listen_address, "127.0.0.1");
    assert_eq!(parsed.listen_port, 9774);
}
