use devrs::commands::setup::all::{all_done_lines, all_steps, AllArgs, SetupStep, STEP_RULE};
use devrs::commands::setup::config::{config_step, ConfigStep};
use devrs::commands::setup::dependencies::{dependency_list, DependenciesArgs};
use devrs::commands::setup::deps::{checking_line, deps_report, required_deps, DepCheck};
use devrs::commands::setup::integrate::detect_shell as integrate_shell;
use devrs::commands::setup::nvim::{
    clone_failure, NvimAction, NvimArgs, NvimEvent, NvimStage, PACKER_REPO_URL,
};
use devrs::commands::setup::shell::{detect_shell, rc_file_name};
use devrs::commands::setup::{find_repo_root, AncestorDir};

#[test]
fn deps_all_found() {
    let deps = required_deps();
    assert_eq!(deps, vec!["docker", "git", "nvim"]);
    let (lines, result) = deps_report(&deps, &vec![DepCheck::Found, DepCheck::Found, DepCheck::Found]);
    assert_eq!(
        lines,
        vec![
            "Checking required host dependencies...",
            "  - Checking for 'docker'... Found.",
            "  - Checking for 'git'... Found.",
            "  - Checking for 'nvim'... Found.",
            "✅ All required dependencies found.",
        ]
    );
    assert_eq!(result, Ok(()));
}

#[test]
fn deps_missing_and_failed_are_listed() {
    let deps = required_deps();
    let checks = vec![DepCheck::Missing, DepCheck::Found, DepCheck::Failed("permission denied".to_string())];
    let (lines, result) = deps_report(&deps, &checks);
    assert_eq!(lines.len(), 4);
    assert_eq!(lines[1], "  - Checking for 'docker'... Missing.");
    assert_eq!(lines[3], "  - Checking for 'nvim'... Error checking (permission denied)");
    assert_eq!(
        result,
        Err("Missing required dependencies: docker, nvim. Please install them manually.".to_string())
    );
    assert!(result.unwrap_err().contains("Missing required dependencies: docker"));
}

#[test]
fn checking_line_verdicts() {
    assert_eq!(checking_line("git", &DepCheck::Found), "  - Checking for 'git'... Found.");
    assert_eq!(checking_line("git", &DepCheck::Missing), "  - Checking for 'git'... Missing.");
}

#[test]
fn dependencies_report_depends_on_install_flag() {
    let deps = dependency_list();
    assert_eq!(deps, vec!["docker", "git", "cargo"]);
    let checks = vec![DepCheck::Found, DepCheck::Missing, DepCheck::Missing];
    let plain = DependenciesArgs { install: false };
    let (lines, result) = plain.report(&deps, &checks);
    assert_eq!(lines[4], "⚠️ Missing dependencies: git, cargo");
    assert_eq!(
        result,
        Err("Missing required dependencies. Please install them manually. See documentation for details.".to_string())
    );
    let install = DependenciesArgs { install: true };
    let (_, result) = install.report(&deps, &checks);
    assert_eq!(
        result,
        Err("Automatic installation not yet implemented. Please install missing dependencies manually.".to_string())
    );
    let all = vec![DepCheck::Found, DepCheck::Found, DepCheck::Found];
    let (lines, result) = plain.report(&deps, &all);
    assert_eq!(lines[4], "✅ All required dependencies found.");
    assert_eq!(result, Ok(()));
}

fn run(args: &NvimArgs, events: Vec<NvimEvent>) -> (Vec<String>, NvimStage, Vec<NvimAction>) {
    let mut stage = NvimStage::Start;
    let mut lines = Vec::new();
    let mut actions = Vec::new();
    for ev in events {
        let step = args.step(stage, &ev);
        stage = step.stage;
        lines.extend(step.lines);
        actions.push(step.action);
    }
    (lines, stage, actions)
}

#[test]
fn nvim_full_run_installs_packer_and_syncs() {
    let args = NvimArgs::default();
    let (lines, stage, actions) = run(
        &args,
        vec![
            NvimEvent::Started,
            NvimEvent::ToolChecked(DepCheck::Found),
            NvimEvent::ToolChecked(DepCheck::Found),
            NvimEvent::ConfigLinked(Ok(())),
            NvimEvent::PackerInspected { present: false, dir: "/p".to_string() },
            NvimEvent::PackerInstalled(Ok(())),
            NvimEvent::PluginsSynced(true),
        ],
    );
    assert_eq!(stage, NvimStage::Finished);
    assert_eq!(
        lines,
        vec![
            "Checking for 'nvim' command... Found.",
            "Checking for 'git' command... Found.",
            "✅ Neovim config symlinked successfully.",
            "Packer plugin manager not found or --force used. Installing Packer via git clone...",
            "✅ Packer installed successfully.",
            "Running PackerSync to install/update Neovim plugins...",
            "✅ PackerSync completed successfully.",
            "Neovim setup process finished.",
        ]
    );
    match &actions[0] {
        NvimAction::CheckTool(t) => assert_eq!(t, "nvim"),
        _ => panic!("expected a tool check"),
    }
    match &actions[4] {
        NvimAction::InstallPacker { remove_first, clone_args } => {
            assert!(!remove_first);
            assert_eq!(clone_args, &vec!["clone", "--depth", "1", PACKER_REPO_URL, "/p"]);
        },
        _ => panic!("expected the Packer install"),
    }
    match &actions[5] {
        NvimAction::SyncPlugins(a) => assert_eq!(a, &vec!["--headless", "+PackerSync", "+qa"]),
        _ => panic!("expected the plugin sync"),
    }
    assert!(matches!(actions[6], NvimAction::Finish(Ok(()))));
}

#[test]
fn nvim_missing_tool_stops() {
    let args = NvimArgs::default();
    let (lines, stage, actions) =
        run(&args, vec![NvimEvent::Started, NvimEvent::ToolChecked(DepCheck::Missing)]);
    assert_eq!(stage, NvimStage::Finished);
    assert_eq!(lines, vec!["Checking for 'nvim' command... Missing."]);
    match &actions[1] {
        NvimAction::Finish(Err(e)) => {
            assert_eq!(e, "'nvim' command not found in PATH. Please install Neovim first.")
        },
        _ => panic!("expected failure"),
    }
    let (_, _, actions) = run(
        &args,
        vec![
            NvimEvent::Started,
            NvimEvent::ToolChecked(DepCheck::Found),
            NvimEvent::ToolChecked(DepCheck::Missing),
        ],
    );
    match &actions[2] {
        NvimAction::Finish(Err(e)) => {
            assert_eq!(e, "'git' command not found in PATH. Git is required to install Packer.")
        },
        _ => panic!("expected failure"),
    }
}

#[test]
fn nvim_existing_packer_with_skip() {
    let args = NvimArgs { force: false, skip_plugins: true };
    let (lines, stage, actions) = run(
        &args,
        vec![
            NvimEvent::Started,
            NvimEvent::ToolChecked(DepCheck::Found),
            NvimEvent::ToolChecked(DepCheck::Found),
            NvimEvent::ConfigLinked(Ok(())),
            NvimEvent::PackerInspected { present: true, dir: "/p".to_string() },
        ],
    );
    assert_eq!(stage, NvimStage::Finished);
    assert_eq!(
        lines[3..].to_vec(),
        vec![
            "Packer plugin manager already installed.",
            "Skipped plugin installation via PackerSync.",
            "Run Neovim and execute `:PackerSync` manually if needed.",
            "Neovim setup process finished.",
        ]
    );
    assert!(matches!(actions[4], NvimAction::Finish(Ok(()))));
}

#[test]
fn nvim_force_reinstalls_and_sync_failure_only_warns() {
    let args = NvimArgs { force: true, skip_plugins: false };
    let (lines, _, actions) = run(
        &args,
        vec![
            NvimEvent::Started,
            NvimEvent::ToolChecked(DepCheck::Found),
            NvimEvent::ToolChecked(DepCheck::Found),
            NvimEvent::ConfigLinked(Ok(())),
            NvimEvent::PackerInspected { present: true, dir: "/p".to_string() },
            NvimEvent::PackerInstalled(Ok(())),
            NvimEvent::PluginsSynced(false),
        ],
    );
    match &actions[4] {
        NvimAction::InstallPacker { remove_first, .. } => assert!(remove_first),
        _ => panic!("expected the Packer install"),
    }
    assert!(lines.contains(
        &"⚠️ PackerSync failed or reported errors. Please run Neovim and execute `:PackerSync` manually to check plugin status.".to_string()
    ));
    assert!(matches!(actions[6], NvimAction::Finish(Ok(()))));
    assert_eq!(clone_failure("/p"), "Failed to clone Packer repository into /p");
}

#[test]
fn test_detect_shell_logic() {
    assert_eq!(integrate_shell(&Some("/bin/zsh".to_string())), "zsh");
    assert_eq!(integrate_shell(&Some("/usr/bin/bash".to_string())), "bash");
    assert_eq!(integrate_shell(&Some("/bin/fish".to_string())), "unknown");
    assert_eq!(integrate_shell(&None), "bash");
}

#[test]
fn setup_shell_defaults_to_bash() {
    assert_eq!(detect_shell(&Some("/bin/zsh".to_string())), "zsh");
    assert_eq!(detect_shell(&Some("/bin/fish".to_string())), "bash");
    assert_eq!(detect_shell(&None), "bash");
    assert_eq!(rc_file_name("zsh"), Ok(".zshrc"));
    assert_eq!(rc_file_name("bash"), Ok(".bashrc"));
    assert_eq!(rc_file_name("fish"), Err("Unsupported shell type for setup: fish".to_string()));
}

#[test]
fn setup_all_runs_steps_in_order() {
    assert_eq!(
        all_steps(),
        vec![SetupStep::Deps, SetupStep::Config, SetupStep::Integrate, SetupStep::Nvim]
    );
    assert_eq!(SetupStep::Deps.heading(), "--- Step 1: Checking Dependencies ---");
    assert_eq!(SetupStep::Nvim.failure(), "Neovim setup failed.");
    assert_eq!(STEP_RULE, "-----------------------------------");
    assert_eq!(all_done_lines()[0], "✅ DevRS host setup tasks finished!");
    let a = AllArgs { force_nvim: true, skip_nvim_plugins: false };
    let n = a.nvim_args();
    assert!(n.force && !n.skip_plugins);
}

#[test]
fn config_step_cases() {
    assert!(matches!(config_step(true, false), Ok(ConfigStep::Keep(_))));
    match config_step(false, true) {
        Ok(ConfigStep::CopySample(l)) => {
            assert_eq!(l, "Creating config.toml from sample template config_sample.toml...")
        },
        _ => panic!("expected copy"),
    }
    assert!(config_step(false, false).is_err());
}

#[test]
fn repo_root_is_first_workspace_ancestor() {
    let ancestors = vec![
        AncestorDir { path: "/r/cli/src".to_string(), cargo_toml: None },
        AncestorDir { path: "/r/cli".to_string(), cargo_toml: Some("[package]\nname = \"cli\"".to_string()) },
        AncestorDir { path: "/r".to_string(), cargo_toml: Some("[workspace]\nmembers = []".to_string()) },
    ];
    assert_eq!(find_repo_root(&ancestors, "/r/cli/src"), Ok("/r".to_string()));
    let no_root = vec![AncestorDir { path: "/x".to_string(), cargo_toml: Some("[package]".to_string()) }];
    assert!(find_repo_root(&no_root, "/x").is_err());
}
