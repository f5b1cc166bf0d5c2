use devrs::cli::ArgsError;
use devrs::commands::container::build_image::BuildArgs;
use devrs::commands::container::logs::LogsArgs;
use devrs::commands::container::rm::RmArgs;
use devrs::commands::container::rmi::RmiArgs;
use devrs::commands::container::run::RunArgs;
use devrs::commands::container::shell::ShellArgs;
use devrs::commands::container::status::StatusArgs;
use devrs::commands::container::stop::StopArgs;
use devrs::commands::container::{ContainerArgs, ContainerCommand};
use devrs::commands::env::shell::ShellArgs as EnvShellArgs;
use devrs::commands::env::status::StatusArgs as EnvStatusArgs;
use devrs::commands::env::stop::StopArgs as EnvStopArgs;
use devrs::commands::setup::shell::ShellArgs as SetupShellArgs;

#[test]
fn test_parses_container_build() {
    let result = ContainerArgs::try_parse_from(&["container", "build", "--file", "Dockerfile.prod"]);
    assert!(result.is_ok());
    match result.unwrap().command {
        ContainerCommand::Build(_) => {}
        _ => panic!("Incorrect subcommand parsed for 'build'"),
    }
}

#[test]
fn test_parses_container_run() {
    let result = ContainerArgs::try_parse_from(&["container", "run", "--image", "test"]);
    assert!(result.is_ok());
    match result.unwrap().command {
        ContainerCommand::Run(_) => {}
        _ => panic!("Incorrect subcommand parsed for 'run'"),
    }
}

#[test]
fn test_parses_container_rm() {
    let result = ContainerArgs::try_parse_from(&["container", "rm", "my-container"]);
    assert!(result.is_ok());
    match result.unwrap().command {
        ContainerCommand::Rm(_) => {}
        _ => panic!("Incorrect subcommand parsed for 'rm'"),
    }
}

#[test]
fn test_rejects_container_buildrun() {
    let result = ContainerArgs::try_parse_from(&["container", "buildrun", "--tag", "test"]);
    assert!(result.is_err(), "'buildrun' should no longer be a valid subcommand");
}

#[test]
fn container_requires_a_subcommand() {
    assert!(matches!(
        ContainerArgs::try_parse_from(&["container"]),
        Err(ArgsError::Rejected(_))
    ));
}

#[test]
fn container_build_reads_its_options() {
    match ContainerArgs::try_parse_from(&["container", "build", "-t", "app:v1", "--no-cache"]).unwrap().command {
        ContainerCommand::Build(b) => {
            assert_eq!(b.tag, Some("app:v1".to_string()));
            assert_eq!(b.file, "Dockerfile");
            assert!(b.no_cache);
        }
        _ => panic!("expected build"),
    }
}

#[test]
fn test_logs_args_parsing() {
    let args = LogsArgs::try_parse_from(&["logs", "my-app-container", "-f", "--lines", "500"]).unwrap();
    assert_eq!(args.container_name_or_id, "my-app-container");
    assert!(args.follow);
    assert_eq!(args.lines, "500");
}

#[test]
fn test_logs_args_requires_name() {
    let result = LogsArgs::try_parse_from(&["logs"]);
    assert!(result.is_err(), "Should fail without container name");
}

#[test]
fn logs_defaults_to_one_hundred_lines() {
    let args = LogsArgs::try_parse_from(&["logs", "web"]).unwrap();
    assert!(!args.follow);
    assert_eq!(args.lines, "100");
}

#[test]
fn test_rm_args_parsing() {
    let args = RmArgs::try_parse_from(&["rm", "c1", "c2", "-f"]).unwrap();
    assert_eq!(args.container_names_or_ids, vec!["c1", "c2"]);
    assert!(args.force);
}

#[test]
fn test_rm_args_requires_name() {
    let result = RmArgs::try_parse_from(&["rm"]);
    assert!(result.is_err(), "Should fail without container names");
}

#[test]
fn test_rmi_args_parsing() {
    let args = RmiArgs::try_parse_from(&["rmi", "img1:latest", "img2:v1.0", "--force"]).unwrap();
    assert_eq!(args.image_names_or_ids, vec!["img1:latest", "img2:v1.0"]);
    assert!(args.force);
}

#[test]
fn test_rmi_args_requires_name() {
    let result = RmiArgs::try_parse_from(&["rmi"]);
    assert!(result.is_err(), "Should fail without image names");
}

#[test]
fn test_run_args_parsing() {
    let args = RunArgs::try_parse_from(&[
        "run",
        "--image",
        "myimage:v2",
        "--name",
        "my-instance",
        "-p",
        "80:8000",
        "--port",
        "443:8443",
        "-e",
        "VAR1=val1",
        "--env",
        "VAR2=val2",
        "--detach",
        "--rm",
        "--",
        "override_cmd",
        "--arg1",
    ])
    .unwrap();
    assert_eq!(args.image, Some("myimage:v2".to_string()));
    assert_eq!(args.name, Some("my-instance".to_string()));
    assert_eq!(args.ports, vec!["80:8000", "443:8443"]);
    assert_eq!(args.env_vars, vec!["VAR1=val1", "VAR2=val2"]);
    assert!(args.detach);
    assert!(args.rm);
    assert_eq!(args.command, vec!["override_cmd", "--arg1"]);
}

#[test]
fn test_run_args_parsing_minimal() {
    let args = RunArgs::try_parse_from(&["run", "--image", "minimal:tag"]).unwrap();
    assert_eq!(args.image, Some("minimal:tag".to_string()));
    assert!(args.name.is_none());
    assert!(args.ports.is_empty());
    assert!(args.env_vars.is_empty());
    assert!(!args.detach);
    assert!(!args.rm);
    assert!(args.command.is_empty());
}

#[test]
fn test_shell_args_parsing_with_command() {
    let args = ShellArgs::try_parse_from(&["shell", "myimage:debug", "--", "python", "-V"]).unwrap();
    assert_eq!(args.image_name, "myimage:debug");
    assert_eq!(args.command, vec!["python", "-V"]);
}

#[test]
fn test_shell_args_parsing_default_shell() {
    let args = ShellArgs::try_parse_from(&["shell", "myimage:debug"]).unwrap();
    assert_eq!(args.image_name, "myimage:debug");
    assert!(args.command.is_empty());
}

#[test]
fn test_shell_args_requires_name() {
    let result = ShellArgs::try_parse_from(&["shell"]);
    assert!(result.is_err(), "Should fail without image name");
}

#[test]
fn status_test_status_args_parsing() {
    let args = StatusArgs::try_parse_from(&["status"]).unwrap();
    assert!(!args.all);
}

#[test]
fn test_status_args_parsing() {
    let args = EnvStatusArgs::try_parse_from(&["status"]).unwrap();
    assert!(args.name.is_none());
}

#[test]
fn test_status_args_parsing_all() {
    let args_all = StatusArgs::try_parse_from(&["status", "-a"]).unwrap();
    assert!(args_all.all);
}

#[test]
fn stop_test_stop_args_parsing() {
    let args = StopArgs::try_parse_from(&["stop", "c1", "c2", "-t", "5"]).unwrap();
    assert_eq!(args.container_names_or_ids, vec!["c1", "c2"]);
    assert_eq!(args.time, 5);
}

#[test]
fn test_stop_args_parsing() {
    let args_named = EnvStopArgs::try_parse_from(&["stop", "--name", "custom-env", "-t", "5"])
        .expect("Parsing named args failed");
    assert_eq!(args_named.name, Some("custom-env".to_string()));
    assert_eq!(args_named.time, 5);
    let args_default = EnvStopArgs::try_parse_from(&["stop"]).expect("Parsing default args failed");
    assert!(args_default.name.is_none());
    assert_eq!(args_default.time, 10);
}

#[test]
fn test_stop_args_parsing_default_time() {
    let args = StopArgs::try_parse_from(&["stop", "c1"]).unwrap();
    assert_eq!(args.container_names_or_ids, vec!["c1"]);
    assert_eq!(args.time, 10);
}

#[test]
fn test_stop_args_requires_name() {
    let result = StopArgs::try_parse_from(&["stop"]);
    assert!(result.is_err(), "Should fail without container names");
}

#[test]
fn stop_time_must_be_a_u32() {
    match StopArgs::try_parse_from(&["stop", "c1", "-t", "soon"]) {
        Err(ArgsError::Rejected(m)) => assert!(m.contains("invalid value 'soon' for '--time"), "{}", m),
        other => panic!("unexpected {:?}", other),
    }
    assert!(matches!(
        StopArgs::try_parse_from(&["stop", "c1", "-t", "4294967296"]),
        Err(ArgsError::Rejected(_))
    ));
    assert_eq!(StopArgs::try_parse_from(&["stop", "c1", "-t", "4294967295"]).unwrap().time, u32::MAX);
    assert_eq!(StopArgs::try_parse_from(&["stop", "c1", "-t", "+7"]).unwrap().time, 7);
}

#[test]
fn unknown_options_are_rejected() {
    assert!(matches!(
        RmArgs::try_parse_from(&["rm", "c1", "--volumes"]),
        Err(ArgsError::Rejected(_))
    ));
}

#[test]
fn build_args_use_the_default_dockerfile() {
    let args = BuildArgs::try_parse_from(&["build"]).unwrap();
    assert!(args.tag.is_none());
    assert_eq!(args.file, "Dockerfile");
    assert!(!args.no_cache);
}

#[test]
fn shell_test_shell_args_parsing() {
    let args_default = EnvShellArgs::try_parse_from(&["shell"]).unwrap();
    assert!(args_default.name.is_none());
    let args_named = EnvShellArgs::try_parse_from(&["shell", "--name", "custom-core-env"]).unwrap();
    assert_eq!(args_named.name, Some("custom-core-env".to_string()));
}

#[test]
fn test_shell_args_parsing() {
    let args = SetupShellArgs::try_parse_from(&["shell"]).unwrap();
    assert!(!args.force);
    let args_force = SetupShellArgs::try_parse_from(&["shell", "--force"]).unwrap();
    assert!(args_force.force);
}
