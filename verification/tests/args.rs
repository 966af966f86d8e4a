use aur_thumbsup::args::{default_config_file, ArgError, Arguments, Commands};

const HOME: &str = "/home/tester";

fn parse(args: Vec<&str>) -> Result<Arguments, ArgError> {
    let args: Vec<String> = args.into_iter().map(|arg| arg.to_owned()).collect();
    Arguments::parse_from(&args, &default_config_file(HOME))
}

#[test]
fn main_flags() {
    // No argument
    let args = parse(vec!["test"]).unwrap();
    assert_eq!(args.config, default_config_file(HOME));
    assert_eq!(args.cmd, None);

    // short config flag
    let args = parse(vec!["test", "-c", "/etc/aur-thumbsup.toml"]).unwrap();
    assert_eq!(args.config, "/etc/aur-thumbsup.toml");
    assert_eq!(args.cmd, None);

    // long config flag
    let args = parse(vec!["test", "--config", "/etc/aur-thumbsup.toml"]).unwrap();
    assert_eq!(args.config, "/etc/aur-thumbsup.toml");
    assert_eq!(args.cmd, None);
}

#[test]
fn vote_cmd() {
    let args = parse(vec!["test", "vote", "pkg1", "pkg2"]).unwrap();
    assert_eq!(
        args.cmd,
        Some(Commands::Vote {
            packages: vec!["pkg1".to_owned(), "pkg2".to_owned()]
        })
    );
}

#[test]
fn unvote_cmd() {
    let args = parse(vec!["test", "unvote", "pkg1", "pkg2"]).unwrap();
    assert_eq!(
        args.cmd,
        Some(Commands::Unvote {
            packages: vec!["pkg1".to_owned(), "pkg2".to_owned()]
        })
    );
}

#[test]
fn unvote_all_cmd() {
    let args = parse(vec!["test", "unvote-all"]).unwrap();
    assert_eq!(args.cmd, Some(Commands::UnvoteAll {}));
}

#[test]
fn check_cmd() {
    let args = parse(vec!["test", "check", "pkg1", "pkg2"]).unwrap();
    assert_eq!(
        args.cmd,
        Some(Commands::Check {
            packages: vec!["pkg1".to_owned(), "pkg2".to_owned()]
        })
    );
}

#[test]
fn list_cmd() {
    let args = parse(vec!["test", "list"]).unwrap();
    assert_eq!(args.cmd, Some(Commands::List {}));
}

#[test]
fn autovote_cmd() {
    let args = parse(vec!["test", "autovote"]).unwrap();
    assert_eq!(args.cmd, Some(Commands::Autovote {}));
}

#[test]
fn create_config_cmd() {
    let args = parse(vec!["test", "create-config", "/etc/aur-thumbsup.toml"]).unwrap();
    assert_eq!(
        args.cmd,
        Some(Commands::CreateConfig {
            path: "/etc/aur-thumbsup.toml".to_owned()
        })
    );
}

#[test]
fn check_config_cmd() {
    let args = parse(vec!["test", "check-config", "/etc/aur-thumbsup.toml"]).unwrap();
    assert_eq!(
        args.cmd,
        Some(Commands::CheckConfig {
            path: "/etc/aur-thumbsup.toml".to_owned()
        })
    );
}

#[test]
fn default_config_file_lies_below_home() {
    assert_eq!(
        default_config_file("/home/foo"),
        "/home/foo/.config/aur-thumbsup.toml"
    );
}

#[test]
fn config_with_equals_sign_and_command() {
    let args = parse(vec!["test", "--config=/tmp/a.toml", "vote", "pkg1"]).unwrap();
    assert_eq!(args.config, "/tmp/a.toml");
    assert_eq!(
        args.cmd,
        Some(Commands::Vote {
            packages: vec!["pkg1".to_owned()]
        })
    );
}

#[test]
fn empty_command_line_is_no_command() {
    let args = Arguments::parse_from(&Vec::new(), "/etc/x.toml").unwrap();
    assert_eq!(args.config, "/etc/x.toml");
    assert_eq!(args.cmd, None);
}

#[test]
fn help_and_version_are_recognised() {
    assert_eq!(parse(vec!["test", "-h"]), Err(ArgError::Help));
    assert_eq!(parse(vec!["test", "--help"]), Err(ArgError::Help));
    assert_eq!(parse(vec!["test", "-V"]), Err(ArgError::Version));
    assert_eq!(parse(vec!["test", "--version"]), Err(ArgError::Version));
}

#[test]
fn config_named_twice_is_refused() {
    assert_eq!(
        parse(vec!["test", "-c", "a", "--config", "b"]),
        Err(ArgError::RepeatedOption)
    );
    assert_eq!(
        parse(vec!["test", "--config=a", "--config=b"]),
        Err(ArgError::RepeatedOption)
    );
    assert_eq!(
        parse(vec!["test", "-c", "a", "--config=b"]),
        Err(ArgError::RepeatedOption)
    );
}

#[test]
fn config_without_path_is_refused() {
    assert_eq!(parse(vec!["test", "-c"]), Err(ArgError::MissingValue));
    assert_eq!(
        parse(vec!["test", "--config", "--other"]),
        Err(ArgError::MissingValue)
    );
}

#[test]
fn unknown_flag_is_refused() {
    assert_eq!(parse(vec!["test", "--frobnicate"]), Err(ArgError::UnknownFlag));
    assert_eq!(
        parse(vec!["test", "vote", "pkg1", "-x"]),
        Err(ArgError::UnknownFlag)
    );
    assert_eq!(
        parse(vec!["test", "create-config", "--x"]),
        Err(ArgError::UnknownFlag)
    );
    assert_eq!(parse(vec!["test", "list", "-x"]), Err(ArgError::UnknownFlag));
}

#[test]
fn unknown_command_is_refused() {
    assert_eq!(parse(vec!["test", "frobnicate"]), Err(ArgError::UnknownCommand));
}

#[test]
fn command_without_its_arguments_is_refused() {
    assert_eq!(parse(vec!["test", "vote"]), Err(ArgError::MissingArgument));
    assert_eq!(parse(vec!["test", "unvote"]), Err(ArgError::MissingArgument));
    assert_eq!(parse(vec!["test", "check"]), Err(ArgError::MissingArgument));
    assert_eq!(
        parse(vec!["test", "create-config"]),
        Err(ArgError::MissingArgument)
    );
    assert_eq!(
        parse(vec!["test", "check-config"]),
        Err(ArgError::MissingArgument)
    );
}

#[test]
fn command_with_too_much_is_refused() {
    assert_eq!(
        parse(vec!["test", "list", "more"]),
        Err(ArgError::UnexpectedArgument)
    );
    assert_eq!(
        parse(vec!["test", "unvote-all", "more"]),
        Err(ArgError::UnexpectedArgument)
    );
    assert_eq!(
        parse(vec!["test", "autovote", "more"]),
        Err(ArgError::UnexpectedArgument)
    );
    assert_eq!(
        parse(vec!["test", "check-config", "a", "b"]),
        Err(ArgError::UnexpectedArgument)
    );
}

#[test]
fn a_lone_dash_is_a_name() {
    let args = parse(vec!["test", "check", "-"]).unwrap();
    assert_eq!(
        args.cmd,
        Some(Commands::Check {
            packages: vec!["-".to_owned()]
        })
    );
}

#[test]
fn config_attached_to_the_short_option() {
    let args = parse(vec!["test", "-c/tmp/a.toml", "list"]).unwrap();
    assert_eq!(args.config, "/tmp/a.toml");
    assert_eq!(args.cmd, Some(Commands::List {}));
    let args = parse(vec!["test", "-c=/tmp/a.toml"]).unwrap();
    assert_eq!(args.config, "/tmp/a.toml");
    assert_eq!(args.cmd, None);
    let args = parse(vec!["test", "-c==a"]).unwrap();
    assert_eq!(args.config, "=a");
    let args = parse(vec!["test", "--config="]).unwrap();
    assert_eq!(args.config, "");
    assert_eq!(
        parse(vec!["test", "-ca", "-cb"]),
        Err(ArgError::RepeatedOption)
    );
}

#[test]
fn after_two_dashes_every_argument_is_taken_as_it_is() {
    let args = parse(vec!["test", "vote", "pkg1", "--", "-pkg2", "--", "--help"]).unwrap();
    assert_eq!(
        args.cmd,
        Some(Commands::Vote {
            packages: vec![
                "pkg1".to_owned(),
                "-pkg2".to_owned(),
                "--".to_owned(),
                "--help".to_owned()
            ]
        })
    );
    let args = parse(vec!["test", "check-config", "--", "-odd.toml"]).unwrap();
    assert_eq!(
        args.cmd,
        Some(Commands::CheckConfig {
            path: "-odd.toml".to_owned()
        })
    );
    assert_eq!(parse(vec!["test", "list", "--"]).unwrap().cmd, Some(Commands::List {}));
    assert_eq!(
        parse(vec!["test", "list", "--", "x"]),
        Err(ArgError::UnexpectedArgument)
    );
    assert_eq!(
        parse(vec!["test", "vote", "--"]),
        Err(ArgError::MissingArgument)
    );
    assert_eq!(
        parse(vec!["test", "create-config", "a", "--", "b"]),
        Err(ArgError::UnexpectedArgument)
    );
    // before a command nothing may follow the two dashes
    assert_eq!(parse(vec!["test", "--"]).unwrap().cmd, None);
    assert_eq!(
        parse(vec!["test", "--", "vote", "pkg1"]),
        Err(ArgError::UnexpectedArgument)
    );
}

#[test]
fn help_is_asked_for_among_the_arguments_of_a_command() {
    assert_eq!(parse(vec!["test", "vote", "--help"]), Err(ArgError::Help));
    assert_eq!(parse(vec!["test", "vote", "pkg1", "-h"]), Err(ArgError::Help));
    assert_eq!(parse(vec!["test", "list", "-h"]), Err(ArgError::Help));
    assert_eq!(parse(vec!["test", "help"]), Err(ArgError::Help));
    assert_eq!(parse(vec!["test", "help", "vote"]), Err(ArgError::Help));
    // the first flag decides
    assert_eq!(
        parse(vec!["test", "vote", "-x", "--help"]),
        Err(ArgError::UnknownFlag)
    );
    // the version is asked for before a command only
    assert_eq!(parse(vec!["test", "vote", "-V"]), Err(ArgError::UnknownFlag));
}

#[test]
fn a_refusal_has_a_message_and_the_help_text_names_every_command() {
    assert_eq!(ArgError::Help.message(), "");
    assert_eq!(ArgError::Version.message(), "");
    assert_eq!(
        ArgError::RepeatedOption.message(),
        "the configuration file is given more than once"
    );
    assert_eq!(
        ArgError::MissingValue.message(),
        "the option for the configuration file needs a path"
    );
    assert_eq!(
        ArgError::UnknownFlag.message(),
        "found a flag that is not known"
    );
    assert_eq!(
        ArgError::UnknownCommand.message(),
        "found a subcommand that is not known"
    );
    assert_eq!(
        ArgError::MissingArgument.message(),
        "the subcommand lacks an argument that it needs"
    );
    assert_eq!(
        ArgError::UnexpectedArgument.message(),
        "found an argument that was not expected"
    );
    for command in [
        "autovote", "check", "check-config", "create-config", "help", "list", "unvote",
        "unvote-all", "vote",
    ] {
        assert!(
            aur_thumbsup::args::USAGE
                .lines()
                .any(|line| line.trim_start().starts_with(&format!("{} ", command))),
            "of {}",
            command
        );
    }
    assert!(aur_thumbsup::args::USAGE.contains("-c, --config <CONFIG>"));
}
