use devrs::cli::ArgsError;
use devrs::commands::env::build_image::BuildArgs;
use devrs::commands::env::exec::ExecArgs;
use devrs::commands::env::logs::LogsArgs;
use devrs::commands::env::prune::PruneArgs;
use devrs::commands::env::rebuild::RebuildArgs;
use devrs::commands::env::status::StatusArgs;
use devrs::commands::env::{EnvArgs, EnvCommand};

#[test]
fn test_build_args_parsing() {
    let args_default = BuildArgs::try_parse_from(&["build"]).unwrap();
    assert!(!args_default.no_cache);
    assert!(args_default.stage.is_none());
    let args_flags = BuildArgs::try_parse_from(&["build", "--no-cache", "--stage", "builder"]).unwrap();
    assert!(args_flags.no_cache);
    assert_eq!(args_flags.stage, Some("builder".to_string()));
}

#[test]
fn test_exec_args_parsing() {
    let args = ExecArgs::try_parse_from(&["exec", "-it", "--user", "testuser", "-w", "/app", "--", "ls", "-la"])
        .unwrap();
    assert!(args.interactive);
    assert!(args.tty);
    assert_eq!(args.user, Some("testuser".to_string()));
    assert_eq!(args.workdir, Some("/app".to_string()));
    assert_eq!(args.command, vec!["ls", "-la"]);
    assert!(args.name.is_none());
}

#[test]
fn test_exec_args_parsing_with_name() {
    let args = ExecArgs::try_parse_from(&[
        "exec",
        "--name",
        "my-dev-container",
        "--",
        "bash",
        "-c",
        "echo hello",
    ])
    .unwrap();
    assert!(!args.interactive);
    assert!(!args.tty);
    assert_eq!(args.name, Some("my-dev-container".to_string()));
    assert_eq!(args.command, vec!["bash", "-c", "echo hello"]);
    assert!(args.user.is_none());
    assert!(args.workdir.is_none());
}

#[test]
fn test_exec_args_requires_command() {
    let result = ExecArgs::try_parse_from(&["exec", "-it"]);
    assert!(result.is_err(), "Should fail without a command");
}

#[test]
fn test_logs_args_parsing_defaults() {
    let args = LogsArgs::try_parse_from(&["logs"]).unwrap();
    assert!(!args.follow);
    assert_eq!(args.lines, "100");
    assert!(args.name.is_none());
}

#[test]
fn test_logs_args_parsing_with_options() {
    let args = LogsArgs::try_parse_from(&["logs", "--follow", "-n", "50", "--name", "my-dev-container"]).unwrap();
    assert!(args.follow);
    assert_eq!(args.lines, "50");
    assert_eq!(args.name, Some("my-dev-container".to_string()));
}

#[test]
fn test_logs_args_parsing_lines_all() {
    let args = LogsArgs::try_parse_from(&["logs", "--lines", "all"]).unwrap();
    assert_eq!(args.lines, "all");
    assert!(!args.follow);
    assert!(args.name.is_none());
}

#[test]
fn placeholder_env_mod_test() {
    assert!(true);
}

#[test]
fn test_prune_args_parsing() {
    let args = PruneArgs::try_parse_from(&["prune"]).unwrap();
    assert!(!args.force);
}

#[test]
fn test_prune_args_parsing_force() {
    let args_force = PruneArgs::try_parse_from(&["prune", "--force"]).unwrap();
    assert!(args_force.force);
    let args_force_short = PruneArgs::try_parse_from(&["prune", "-f"]).unwrap();
    assert!(args_force_short.force);
}

#[test]
fn test_rebuild_args_parsing() {
    let args = RebuildArgs::try_parse_from(&["rebuild", "--name", "my-env", "--no-cache", "--with-plugins"]).unwrap();
    assert_eq!(args.name, Some("my-env".to_string()));
    assert!(args.no_cache);
    assert!(args.with_plugins);
}

#[test]
fn test_rebuild_args_parsing_defaults() {
    let args = RebuildArgs::try_parse_from(&["rebuild"]).unwrap();
    assert!(args.name.is_none());
    assert!(!args.no_cache);
    assert!(!args.with_plugins);
}

#[test]
fn test_status_args_parsing_with_name() {
    let args_named = StatusArgs::try_parse_from(&["status", "--name", "custom-env"]).unwrap();
    assert_eq!(args_named.name, Some("custom-env".to_string()));
}

#[test]
fn env_dispatches_to_its_subcommands() {
    match EnvArgs::try_parse_from(&["env", "stop", "-t", "3"]).unwrap().command {
        EnvCommand::Stop(s) => assert_eq!(s.time, 3),
        _ => panic!("expected stop"),
    }
    match EnvArgs::try_parse_from(&["env", "exec", "--", "true"]).unwrap().command {
        EnvCommand::Exec(e) => assert_eq!(e.command, vec!["true"]),
        _ => panic!("expected exec"),
    }
    assert!(matches!(EnvArgs::try_parse_from(&["env"]), Err(ArgsError::Rejected(_))));
}

#[test]
fn env_stop_reports_a_bad_time() {
    match EnvArgs::try_parse_from(&["env", "stop", "--time", "-3"]) {
        Err(_) => {}
        Ok(_) => panic!("a negative time is not a u32"),
    }
    match EnvArgs::try_parse_from(&["env", "stop", "--time=x"]) {
        Err(ArgsError::Rejected(m)) => assert!(m.contains("invalid value 'x' for '--time"), "{}", m),
        other => panic!("unexpected {:?}", other),
    }
}
