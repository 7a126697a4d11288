use settings_committer::args::{
    parse_args, program_name, usage, usage_msg, Args, ArgsError, DEFAULT_API_SOCKET, EXIT_USAGE,
};
use settings_committer::level::LevelFilter;

fn line(words: &[&str]) -> Vec<String> {
    words.iter().map(|word| word.to_string()).collect()
}

#[test]
fn no_options_give_the_defaults() {
    let expected = Args {
        log_level: LevelFilter::Info,
        socket_path: String::from("/run/api.sock"),
    };
    assert_eq!(parse_args(&line(&["settings-committer"])), Ok(expected));
}

#[test]
fn an_empty_command_line_gives_the_defaults() {
    let parsed = parse_args(&Vec::new()).unwrap();
    assert_eq!(parsed.log_level, LevelFilter::Info);
    assert_eq!(parsed.socket_path, DEFAULT_API_SOCKET);
}

#[test]
fn the_program_name_is_no_option() {
    let parsed = parse_args(&line(&["--log-level"])).unwrap();
    assert_eq!(parsed.log_level, LevelFilter::Info);
}

#[test]
fn socket_path_is_taken_as_given() {
    let parsed = parse_args(&line(&["prog", "--socket-path", "/tmp/api.sock"])).unwrap();
    assert_eq!(parsed.socket_path, "/tmp/api.sock");
    assert_eq!(parsed.log_level, LevelFilter::Info);
}

#[test]
fn socket_path_may_look_like_a_flag() {
    let parsed = parse_args(&line(&["prog", "--socket-path", "--log-level"])).unwrap();
    assert_eq!(parsed.socket_path, "--log-level");
}

#[test]
fn every_level_name_selects_its_level() {
    let names = [
        ("error", LevelFilter::Error),
        ("warn", LevelFilter::Warn),
        ("info", LevelFilter::Info),
        ("debug", LevelFilter::Debug),
        ("trace", LevelFilter::Trace),
    ];
    for (name, level) in names {
        let parsed = parse_args(&line(&["prog", "--log-level", name])).unwrap();
        assert_eq!(parsed.log_level, level, "name {}", name);
        assert_eq!(parsed.socket_path, "/run/api.sock");
    }
}

#[test]
fn off_is_no_level_of_the_command_line() {
    for name in ["off", "OFF", "Off", "oFf"] {
        assert_eq!(
            parse_args(&line(&["prog", "--log-level", name])),
            Err(ArgsError::InvalidLogLevel {
                name: String::from(name)
            }),
            "name {}",
            name
        );
    }
    assert_eq!(
        parse_args(&line(&["prog", "--log-level", "debug", "--log-level", "off"])),
        Err(ArgsError::InvalidLogLevel {
            name: String::from("off")
        })
    );
    assert_eq!(
        parse_args(&line(&["prog", "--log-level", "off", "--log-level", "debug"])),
        Err(ArgsError::InvalidLogLevel {
            name: String::from("off")
        })
    );
}

#[test]
fn a_refused_off_is_reported_like_any_unknown_level() {
    let error = parse_args(&line(&["prog", "--log-level", "off"])).unwrap_err();
    assert_eq!(
        error.report("prog"),
        format!("Invalid log level 'off'\n\n{}", usage("prog"))
    );
}

#[test]
fn level_names_ignore_case() {
    let parsed = parse_args(&line(&["prog", "--log-level", "DeBuG"])).unwrap();
    assert_eq!(parsed.log_level, LevelFilter::Debug);
    let parsed = parse_args(&line(&["prog", "--log-level", "TRACE"])).unwrap();
    assert_eq!(parsed.log_level, LevelFilter::Trace);
}

#[test]
fn both_options_in_either_order() {
    let expected = Args {
        log_level: LevelFilter::Warn,
        socket_path: String::from("/x"),
    };
    assert_eq!(
        parse_args(&line(&["prog", "--log-level", "warn", "--socket-path", "/x"])),
        Ok(Args {
            log_level: LevelFilter::Warn,
            socket_path: String::from("/x"),
        })
    );
    assert_eq!(
        parse_args(&line(&["prog", "--socket-path", "/x", "--log-level", "warn"])),
        Ok(expected)
    );
}

#[test]
fn the_later_value_of_an_option_holds() {
    let parsed = parse_args(&line(&[
        "prog",
        "--socket-path",
        "/first",
        "--log-level",
        "error",
        "--socket-path",
        "/second",
        "--log-level",
        "trace",
    ]))
    .unwrap();
    assert_eq!(parsed.socket_path, "/second");
    assert_eq!(parsed.log_level, LevelFilter::Trace);
}

#[test]
fn log_level_without_value_is_refused() {
    assert_eq!(
        parse_args(&line(&["prog", "--log-level"])),
        Err(ArgsError::MissingLogLevel)
    );
}

#[test]
fn unknown_level_name_is_refused() {
    assert_eq!(
        parse_args(&line(&["prog", "--log-level", "verbose"])),
        Err(ArgsError::InvalidLogLevel {
            name: String::from("verbose")
        })
    );
    assert_eq!(
        parse_args(&line(&["prog", "--log-level", ""])),
        Err(ArgsError::InvalidLogLevel {
            name: String::new()
        })
    );
    assert_eq!(
        parse_args(&line(&["prog", "--log-level", "infos"])),
        Err(ArgsError::InvalidLogLevel {
            name: String::from("infos")
        })
    );
}

#[test]
fn socket_path_without_value_is_refused() {
    assert_eq!(
        parse_args(&line(&["prog", "--socket-path"])),
        Err(ArgsError::MissingSocketPath)
    );
}

#[test]
fn a_word_that_is_no_flag_is_refused() {
    assert_eq!(
        parse_args(&line(&["prog", "--help"])),
        Err(ArgsError::UnknownArgument)
    );
    assert_eq!(
        parse_args(&line(&["prog", "--socket-path", "/x", "extra"])),
        Err(ArgsError::UnknownArgument)
    );
    assert_eq!(
        parse_args(&line(&["prog", "--LOG-LEVEL", "info"])),
        Err(ArgsError::UnknownArgument)
    );
}

#[test]
fn the_leftmost_fault_decides() {
    assert_eq!(
        parse_args(&line(&["prog", "--log-level", "loud", "--bogus"])),
        Err(ArgsError::InvalidLogLevel {
            name: String::from("loud")
        })
    );
    assert_eq!(
        parse_args(&line(&["prog", "--bogus", "--log-level", "loud"])),
        Err(ArgsError::UnknownArgument)
    );
    assert_eq!(
        parse_args(&line(&["prog", "--log-level", "info", "--socket-path"])),
        Err(ArgsError::MissingSocketPath)
    );
}

#[test]
fn usage_names_the_program_and_the_default_socket() {
    let expected = "Usage: settings-committer\n            [ --socket-path PATH ]\n            [ --log-level trace|debug|info|warn|error ]\n\n    Socket path defaults to /run/api.sock";
    assert_eq!(usage("settings-committer"), expected);
}

#[test]
fn usage_msg_puts_the_complaint_first() {
    let text = usage_msg("Did not give argument to --log-level", "prog");
    assert_eq!(
        text,
        format!("Did not give argument to --log-level\n\n{}", usage("prog"))
    );
}

#[test]
fn complaints_name_the_fault() {
    assert_eq!(
        ArgsError::MissingLogLevel.complaint(),
        Some(String::from("Did not give argument to --log-level"))
    );
    assert_eq!(
        ArgsError::MissingSocketPath.complaint(),
        Some(String::from("Did not give argument to --socket-path"))
    );
    assert_eq!(
        ArgsError::InvalidLogLevel {
            name: String::from("verbose")
        }
        .complaint(),
        Some(String::from("Invalid log level 'verbose'"))
    );
    assert_eq!(ArgsError::UnknownArgument.complaint(), None);
}

#[test]
fn report_is_complaint_and_usage() {
    let error = ArgsError::InvalidLogLevel {
        name: String::from("loud"),
    };
    assert_eq!(
        error.report("prog"),
        format!("Invalid log level 'loud'\n\n{}", usage("prog"))
    );
    assert_eq!(ArgsError::UnknownArgument.report("prog"), usage("prog"));
}

#[test]
fn program_name_is_the_first_word() {
    assert_eq!(program_name(&line(&["/usr/bin/agent", "--x"])), "/usr/bin/agent");
    assert_eq!(program_name(&Vec::new()), "program");
}

#[test]
fn a_refused_command_line_exits_with_two() {
    assert_eq!(EXIT_USAGE, 2);
}
