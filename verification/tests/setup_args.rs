use devrs::commands::setup::all::AllArgs;
use devrs::commands::setup::dependencies::DependenciesArgs;
use devrs::commands::setup::deps::DepsArgs;
use devrs::commands::setup::integrate::IntegrateArgs;
use devrs::commands::setup::nvim::NvimArgs;
use devrs::commands::setup::{SetupArgs, SetupCommand};

#[test]
fn test_all_args_parsing() {
    let args_default = AllArgs::try_parse_from(&["all"]).unwrap();
    assert!(!args_default.force_nvim);
    assert!(!args_default.skip_nvim_plugins);
    let args_flags = AllArgs::try_parse_from(&["all", "--force-nvim", "--skip-nvim-plugins"]).unwrap();
    assert!(args_flags.force_nvim);
    assert!(args_flags.skip_nvim_plugins);
    let args_short_force = AllArgs::try_parse_from(&["all", "-f"]).unwrap();
    assert!(args_short_force.force_nvim);
    assert!(!args_short_force.skip_nvim_plugins);
}

#[test]
fn test_dependencies_args_parsing() {
    let args = DependenciesArgs::try_parse_from(&["dependencies"]).unwrap();
    assert!(!args.install);
    let args_install = DependenciesArgs::try_parse_from(&["dependencies", "--install"]).unwrap();
    assert!(args_install.install);
}

#[test]
fn test_deps_args_parsing() {
    let args = DepsArgs::try_parse_from(&["deps"]).unwrap();
    let _ = args;
}

#[test]
fn test_integrate_args_parsing() {
    let args = IntegrateArgs::try_parse_from(&["integrate"]).unwrap();
    let _ = args;
}

#[test]
fn test_parses_setup_default_to_all() {
    let args = SetupArgs::try_parse_from(&["setup"]).unwrap();
    assert!(args.command.is_none());
}

#[test]
fn test_parses_setup_all() {
    let args = SetupArgs::try_parse_from(&["setup", "all"]).unwrap();
    assert!(matches!(args.command, Some(SetupCommand::All(_))));
}

#[test]
fn test_parses_setup_config() {
    let args = SetupArgs::try_parse_from(&["setup", "config"]).unwrap();
    assert!(matches!(args.command, Some(SetupCommand::Config(_))));
}

#[test]
fn test_parses_setup_deps() {
    let args = SetupArgs::try_parse_from(&["setup", "deps"]).unwrap();
    assert!(matches!(args.command, Some(SetupCommand::Deps(_))));
}

#[test]
fn test_parses_setup_integrate() {
    let args = SetupArgs::try_parse_from(&["setup", "integrate"]).unwrap();
    assert!(matches!(args.command, Some(SetupCommand::Integrate(_))));
}

#[test]
fn test_parses_setup_nvim() {
    let args = SetupArgs::try_parse_from(&["setup", "nvim", "--force", "--skip-plugins"]).unwrap();
    assert!(matches!(args.command, Some(SetupCommand::Nvim(_))));
    if let Some(SetupCommand::Nvim(nvim_args)) = args.command {
        assert!(nvim_args.force);
        assert!(nvim_args.skip_plugins);
    } else {
        panic!("Parsed as wrong variant");
    }
}

#[test]
fn test_nvim_args_parsing() {
    let args_default = NvimArgs::try_parse_from(&["nvim"]).unwrap();
    assert!(!args_default.force, "Default force should be false");
    assert!(!args_default.skip_plugins, "Default skip_plugins should be false");
    let args_flags = NvimArgs::try_parse_from(&["nvim", "--force", "--skip-plugins"]).unwrap();
    assert!(args_flags.force, "force should be true");
    assert!(args_flags.skip_plugins, "skip_plugins should be true");
    let args_force_only = NvimArgs::try_parse_from(&["nvim", "-f"]).unwrap();
    assert!(args_force_only.force, "force should be true via -f");
    assert!(!args_force_only.skip_plugins, "skip_plugins should be false with only -f");
}

#[test]
fn setup_rejects_unknown_subcommands() {
    assert!(SetupArgs::try_parse_from(&["setup", "dependencies"]).is_err());
    assert!(SetupArgs::try_parse_from(&["setup", "shell"]).is_err());
}

#[test]
fn default_setup_arguments_have_every_switch_off() {
    let all = AllArgs::default();
    assert!(!all.force_nvim && !all.skip_nvim_plugins);
    let nvim = NvimArgs::default();
    assert!(!nvim.force && !nvim.skip_plugins);
}
