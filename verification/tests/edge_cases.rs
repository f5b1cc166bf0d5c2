use devrs::cli::ArgsError;
use devrs::commands::container::stop::StopArgs;
use devrs::commands::blueprint::create::{local_stamp, to_pascal_case};
use devrs::commands::container::run::missing_image_warning;
use devrs::commands::container::shell::{shell_precheck, ShellError};
use devrs::commands::container::status::{print_container_summary, short_id_text, ContainerSummary};
use devrs::commands::env::prune::{prune_candidate_indices, prune_listing_lines, prune_target_ids};
use devrs::commands::env::rebuild::{RebuildAction, RebuildArgs, RebuildEvent, RebuildStage};
use devrs::commands::srv::server_logic::after_failed_bind;

fn summary(id: Option<&str>, name: &str, state: &str) -> ContainerSummary {
    ContainerSummary {
        id: id.map(|s| s.to_string()),
        names: Some(vec![name.to_string()]),
        image: Some("img:latest".to_string()),
        command: None,
        created: None,
        status: None,
        state: Some(state.to_string()),
        ports: None,
    }
}

#[test]
fn summary_shows_missing_and_short_ids() {
    let lines = print_container_summary(&summary(None, "/a", "running"));
    assert_eq!(lines[0], "ID:      N/A");
    let lines = print_container_summary(&summary(Some("abc"), "/a", "running"));
    assert_eq!(lines[0], "ID:      abc");
    let lines = print_container_summary(&summary(Some("1234567890abcdef"), "/a", "running"));
    assert_eq!(lines[0], "ID:      1234567890ab");
}

#[test]
fn short_id_falls_back() {
    assert_eq!(short_id_text(&None, "unknown-id"), "unknown-id");
    assert_eq!(short_id_text(&Some("abc".to_string()), "N/A"), "abc");
    assert_eq!(short_id_text(&Some("0123456789abcdefff".to_string()), "N/A"), "0123456789ab");
}

#[test]
fn prune_lists_short_and_missing_ids() {
    let cs = vec![
        summary(Some("abc"), "/devrs-instance-1", "exited"),
        summary(None, "/devrs-instance-2", "exited"),
        summary(Some("0123456789abcdef"), "/devrs-instance-3", "running"),
    ];
    let idx = prune_candidate_indices(&cs, "devrs-instance");
    assert_eq!(idx, vec![0, 1]);
    let lines = prune_listing_lines(&cs, &idx);
    assert_eq!(
        lines,
        vec![
            "The following stopped core environment containers will be removed:".to_string(),
            "  - abc (/devrs-instance-1)".to_string(),
            "  - unknown-id (/devrs-instance-2)".to_string(),
        ]
    );
}

#[test]
fn failed_bind_at_the_last_port_gives_up() {
    let r = after_failed_bind("127.0.0.1", 65535, 5, 0, 65535);
    assert!(r.is_err());
    assert!(r.unwrap_err().contains("127.0.0.1"));
    assert_eq!(after_failed_bind("127.0.0.1", 8000, 5, 0, 8000), Ok(8001));
    assert!(after_failed_bind("127.0.0.1", 8000, 5, 4, 8004).is_err());
}

#[test]
fn shell_refuses_a_missing_image() {
    assert!(shell_precheck("alpine:3", true).is_ok());
    match shell_precheck("alpine:3", false) {
        Err(e) => {
            assert!(matches!(&e, ShellError::ImageNotFound { name } if name == "alpine:3"));
            assert_eq!(e.message(), "Image 'alpine:3' not found locally.");
        }
        Ok(()) => panic!("expected an error"),
    }
}

#[test]
fn run_warns_of_a_missing_image() {
    assert_eq!(missing_image_warning("alpine:3", true), None);
    assert_eq!(
        missing_image_warning("alpine:3", false),
        Some("Image 'alpine:3' not found locally. Docker will try to pull it.".to_string())
    );
}

#[test]
fn pascal_case_is_idempotent_and_drops_delimiters() {
    for s in ["my-api_x", "hello_world", "a--b", "already", "-x-"] {
        let once = to_pascal_case(s);
        assert_eq!(to_pascal_case(&once), once);
        assert!(!once.contains('-') && !once.contains('_'));
        assert_eq!(once.chars().count(), s.chars().filter(|c| *c != '-' && *c != '_').count());
    }
    assert_eq!(to_pascal_case("my-api_x"), "MyApiX");
}

#[test]
fn rebuild_runs_stop_remove_check_build() {
    let args = RebuildArgs { no_cache: true, name: None, with_plugins: false };
    let s = args.step("devrs-c", "devrs-img:latest", RebuildStage::Start, &RebuildEvent::Started);
    assert_eq!(s.stage, RebuildStage::Stopping);
    assert_eq!(
        s.lines,
        vec![
            "Rebuilding core environment 'devrs-c'...".to_string(),
            "Attempting to stop existing container 'devrs-c' (if running)...".to_string(),
        ]
    );
    assert!(matches!(&s.action, RebuildAction::StopContainer { name, timeout: 5 } if name == "devrs-c"));

    let s = args.step("devrs-c", "devrs-img:latest", RebuildStage::Stopping, &RebuildEvent::Stopped);
    assert_eq!(s.stage, RebuildStage::Removing);
    assert!(matches!(&s.action, RebuildAction::RemoveContainer { name, force: true } if name == "devrs-c"));

    let s = args.step("devrs-c", "devrs-img:latest", RebuildStage::Removing, &RebuildEvent::Removed);
    assert_eq!(s.stage, RebuildStage::CheckingDockerfile);
    assert_eq!(s.lines, vec!["Building the core environment image...".to_string()]);
    assert!(matches!(&s.action, RebuildAction::CheckDockerfile(p) if p == "Dockerfile"));

    let s = args.step(
        "devrs-c",
        "devrs-img:latest",
        RebuildStage::CheckingDockerfile,
        &RebuildEvent::DockerfileChecked(false),
    );
    assert_eq!(s.stage, RebuildStage::Finished);
    match &s.action {
        RebuildAction::Finish(Err(m)) => assert_eq!(
            m,
            "Core environment Dockerfile not found at expected path: 'Dockerfile'. Please run this command from the root of the devrs repository."
        ),
        _ => panic!("expected a refusal"),
    }

    let s = args.step(
        "devrs-c",
        "devrs-img:latest",
        RebuildStage::CheckingDockerfile,
        &RebuildEvent::DockerfileChecked(true),
    );
    assert_eq!(s.stage, RebuildStage::Building);
    assert!(matches!(
        &s.action,
        RebuildAction::BuildImage { image, dockerfile, no_cache: true }
            if image == "devrs-img:latest" && dockerfile == "Dockerfile"
    ));

    let s = args.step("devrs-c", "devrs-img:latest", RebuildStage::Building, &RebuildEvent::Built(false));
    match &s.action {
        RebuildAction::Finish(Err(m)) => {
            assert_eq!(m, "Failed to build core environment image 'devrs-img:latest'")
        }
        _ => panic!("expected a failure"),
    }

    let s = args.step("devrs-c", "devrs-img:latest", RebuildStage::Building, &RebuildEvent::Built(true));
    assert_eq!(s.stage, RebuildStage::Finished);
    assert_eq!(
        s.lines,
        vec![
            "✅ Environment rebuild process completed for 'devrs-c'.".to_string(),
            "Run 'devrs env shell' to start using the rebuilt environment.".to_string(),
        ]
    );
    assert!(matches!(&s.action, RebuildAction::Finish(Ok(()))));
}

#[test]
fn help_is_answered_not_rejected() {
    match StopArgs::try_parse_from(&["stop", "--help"]) {
        Err(ArgsError::Answered(text)) => assert!(text.contains("Usage"), "{}", text),
        other => panic!("unexpected {:?}", other),
    }
    match StopArgs::try_parse_from(&["stop"]) {
        Err(ArgsError::Rejected(m)) => assert!(m.contains("required"), "{}", m),
        other => panic!("unexpected {:?}", other),
    }
}

#[test]
fn stop_time_goes_through_clap() {
    assert_eq!(StopArgs::try_parse_from(&["stop", "c1"]).unwrap().time, 10);
    assert_eq!(StopArgs::try_parse_from(&["stop", "c1", "--time", "0"]).unwrap().time, 0);
    assert!(StopArgs::try_parse_from(&["stop", "c1", "--time", "-1"]).is_err());
}

#[test]
fn local_stamp_has_the_documented_shape() {
    let s = local_stamp();
    assert!(s.year.len() >= 4);
    assert!(s.date.starts_with(&s.year));
    let rest: Vec<char> = s.date[s.year.len()..].chars().collect();
    assert_eq!(rest.len(), 6);
    assert_eq!(rest[0], '-');
    assert_eq!(rest[3], '-');
    assert!(rest[1].is_ascii_digit() && rest[2].is_ascii_digit());
    assert!(rest[4].is_ascii_digit() && rest[5].is_ascii_digit());
    let t: Vec<char> = s.time.chars().collect();
    assert_eq!(t.len(), 8);
    assert_eq!(t[2], ':');
    assert_eq!(t[5], ':');
    for i in [0, 1, 3, 4, 6, 7] {
        assert!(t[i].is_ascii_digit());
    }
}

#[test]
fn help_shows_about_argument_help_and_value_names() {
    match StopArgs::try_parse_from(&["stop", "--help"]) {
        Err(ArgsError::Answered(text)) => {
            assert!(text.contains("Stop one or more running application containers"), "{}", text);
            assert!(text.contains("<TIME>"), "{}", text);
            assert!(text.contains("<CONTAINER_NAMES_OR_IDS>"), "{}", text);
            assert!(text.contains("to stop gracefully before Docker forcibly kills them"), "{}", text);
        }
        other => panic!("unexpected {:?}", other),
    }
}

#[test]
fn prune_removes_only_containers_with_an_id() {
    let cs = vec![
        summary(Some("abc"), "/devrs-instance-1", "exited"),
        summary(None, "/devrs-instance-2", "exited"),
        summary(Some("def"), "/devrs-instance-3", "created"),
        summary(Some("ghi"), "/other", "exited"),
    ];
    let idx = prune_candidate_indices(&cs, "devrs-instance");
    assert_eq!(prune_target_ids(&cs, &idx), vec!["abc".to_string(), "def".to_string()]);
}
