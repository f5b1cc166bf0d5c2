//! `devrs setup`: preparing the host for DevRS.

pub mod all;
pub mod config;
pub mod dependencies;
pub mod deps;
pub mod integrate;
pub mod nvim;
pub mod shell;

use crate::cli::{
    args_error_message, args_ok, argv_texts, clap_outcome, clap_parse, command_ok, outcome_fits,
    values_fit, values_models, ArgModel, ArgSpec, ArgsError, CommandModel, CommandSpec, LeafModel,
    LeafSpec, ParsedArgs, ValuesModel,
};
use crate::cli::str_opt_of;
use crate::text::{chars_of, contains, has_substring};
use vstd::prelude::*;

verus! {

/// The line describing the command in its help.
pub const ABOUT: &'static str = "Configure the host system for DevRS (dependencies, config, shell integration, nvim)";

/// The line describing `setup all` in the help of `setup`.
pub const ALL_ABOUT: &'static str = "Perform all setup tasks (deps, config, integrate, nvim)";

/// The line describing `setup config` in the help of `setup`.
pub const CONFIG_ABOUT: &'static str = "Set up the user configuration file (config.toml symlink)";

/// The line describing `setup deps` in the help of `setup`.
pub const DEPS_ABOUT: &'static str = "Check required host system dependencies (e.g., Docker, Git, Nvim)";

/// The line describing `setup integrate` in the help of `setup`.
pub const INTEGRATE_ABOUT: &'static str = "Provide instructions for shell integration (sourcing DevRS functions)";

/// The line describing `setup nvim` in the help of `setup`.
pub const NVIM_ABOUT: &'static str = "Set up Neovim configuration (symlink init.lua, install Packer)";

/// The subcommands of `devrs setup`.
#[derive(Debug)]
pub enum SetupCommand {
    /// `devrs setup all`.
    All(all::AllArgs),
    /// `devrs setup config`.
    Config(config::ConfigArgs),
    /// `devrs setup deps`.
    Deps(deps::DepsArgs),
    /// `devrs setup integrate`.
    Integrate(integrate::IntegrateArgs),
    /// `devrs setup nvim`.
    Nvim(nvim::NvimArgs),
}

/// Arguments of `devrs setup`.
#[derive(Debug)]
pub struct SetupArgs {
    /// The subcommand given, if any.
    pub command: Option<SetupCommand>,
}

impl SetupArgs {
    /// The command: no arguments of its own, one subcommand per variant.
    pub open spec fn spec_command() -> CommandModel {
        CommandModel {
            name: "setup"@,
            about: Some(ABOUT@),
            args: Seq::empty(),
            subcommands: seq![
                LeafModel { name: "all"@, about: Some(ALL_ABOUT@), args: all::AllArgs::spec_args() },
                LeafModel { name: "config"@, about: Some(CONFIG_ABOUT@), args: config::ConfigArgs::spec_args() },
                LeafModel { name: "deps"@, about: Some(DEPS_ABOUT@), args: deps::DepsArgs::spec_args() },
                LeafModel { name: "integrate"@, about: Some(INTEGRATE_ABOUT@), args: integrate::IntegrateArgs::spec_args() },
                LeafModel { name: "nvim"@, about: Some(NVIM_ABOUT@), args: nvim::NvimArgs::spec_args() },
            ],
            subcommand_required: false,
        }
    }

    /// The command.
    pub fn command() -> (r: CommandSpec)
        ensures
            r@ == Self::spec_command(),
    {
        let r = CommandSpec {
            name: "setup",
            about: Some(ABOUT),
            args: Vec::new(),
            subcommands: vec![
                LeafSpec { name: "all", about: Some(ALL_ABOUT), args: all::AllArgs::args() },
                LeafSpec { name: "config", about: Some(CONFIG_ABOUT), args: config::ConfigArgs::args() },
                LeafSpec { name: "deps", about: Some(DEPS_ABOUT), args: deps::DepsArgs::args() },
                LeafSpec { name: "integrate", about: Some(INTEGRATE_ABOUT), args: integrate::IntegrateArgs::args() },
                LeafSpec { name: "nvim", about: Some(NVIM_ABOUT), args: nvim::NvimArgs::args() },
            ],
            subcommand_required: false,
        };
        assert(r@.args =~= Seq::<ArgModel>::empty());
        assert(r@.subcommands =~= Self::spec_command().subcommands);
        r
    }

    /// `clap` accepts the command.
    #[verifier::spinoff_prover]
    pub proof fn lemma_command_ok()
        ensures
            command_ok(Self::spec_command()),
    {
        all::AllArgs::lemma_command_ok();
        config::ConfigArgs::lemma_command_ok();
        deps::DepsArgs::lemma_command_ok();
        integrate::IntegrateArgs::lemma_command_ok();
        nvim::NvimArgs::lemma_command_ok();
        reveal_strlit("all");
        reveal_strlit("config");
        reveal_strlit("deps");
        reveal_strlit("integrate");
        reveal_strlit("nvim");
        reveal_strlit("help");
        assert("deps"@[0] != "nvim"@[0]);
        assert("deps"@[0] != "help"@[0]);
        assert("nvim"@[0] != "help"@[0]);
        let c = Self::spec_command();
        let s = c.subcommands;
        assert(args_ok(c.args));
        assert(s[0].args == all::AllArgs::spec_args());
        assert(args_ok(s[0].args));
        assert(s[1].args == config::ConfigArgs::spec_args());
        assert(args_ok(s[1].args));
        assert(s[2].args == deps::DepsArgs::spec_args());
        assert(args_ok(s[2].args));
        assert(s[3].args == integrate::IntegrateArgs::spec_args());
        assert(args_ok(s[3].args));
        assert(s[4].args == nvim::NvimArgs::spec_args());
        assert(args_ok(s[4].args));
        assert forall|j: int| 0 <= j < s.len() implies args_ok(#[trigger] s[j].args)
            && s[j].name.len() > 0 && s[j].name != "help"@ by {
            assert(j == 0 || j == 1 || j == 2 || j == 3 || j == 4);
        }
        assert forall|i: int, j: int| 0 <= i < j < s.len() implies (#[trigger] s[i]).name
            != (#[trigger] s[j]).name by {
            assert(i == 0 || i == 1 || i == 2 || i == 3 || i == 4);
            assert(j == 0 || j == 1 || j == 2 || j == 3 || j == 4);
        }
    }

    /// Whether the subcommand and its fields are the parsed ones.
    pub open spec fn read_from(self, subs: Seq<Option<Seq<ValuesModel>>>) -> bool {
        match self.command {
            None => forall|k: int| 0 <= k < subs.len() ==> (#[trigger] subs[k]) is None,
            Some(SetupCommand::All(a)) => subs[0] is Some && a.read_from(subs[0]->0),
            Some(SetupCommand::Config(a)) => subs[1] is Some && a.read_from(subs[1]->0),
            Some(SetupCommand::Deps(a)) => subs[2] is Some && a.read_from(subs[2]->0),
            Some(SetupCommand::Integrate(a)) => subs[3] is Some && a.read_from(subs[3]->0),
            Some(SetupCommand::Nvim(a)) => subs[4] is Some && a.read_from(subs[4]->0),
        }
    }

    /// The subcommand and its fields from a parsed command line.
    pub fn from_parsed(p: &ParsedArgs) -> (r: SetupArgs)
        requires
            outcome_fits(Self::spec_command(), p@),
        ensures
            r.read_from(p@.subcommands),
    {
        let ghost s = p@.subcommands;
        let ghost c = Self::spec_command();
        assert(s.len() == 5);
        if let Some(vals) = &p.subcommands[0] {
            assert(s[0] is Some);
            assert(values_fit(c.subcommands[0].args, s[0]->0));
            assert(forall|j: int| 0 <= j < 5 && j != 0 ==> (#[trigger] s[j]) is None) by {
                assert forall|j: int| 0 <= j < 5 && j != 0 implies (#[trigger] s[j]) is None by {
                    if j < 0 {
                        assert(!(s[j] is Some && s[0] is Some));
                    } else {
                        assert(!(s[0] is Some && s[j] is Some));
                    }
                }
            }
            return SetupArgs { command: Some(SetupCommand::All(all::AllArgs::from_values(vals))) };
        }
        if let Some(vals) = &p.subcommands[1] {
            assert(s[1] is Some);
            assert(values_fit(c.subcommands[1].args, s[1]->0));
            assert(forall|j: int| 0 <= j < 5 && j != 1 ==> (#[trigger] s[j]) is None) by {
                assert forall|j: int| 0 <= j < 5 && j != 1 implies (#[trigger] s[j]) is None by {
                    if j < 1 {
                        assert(!(s[j] is Some && s[1] is Some));
                    } else {
                        assert(!(s[1] is Some && s[j] is Some));
                    }
                }
            }
            return SetupArgs { command: Some(SetupCommand::Config(config::ConfigArgs::from_values(vals))) };
        }
        if let Some(vals) = &p.subcommands[2] {
            assert(s[2] is Some);
            assert(values_fit(c.subcommands[2].args, s[2]->0));
            assert(forall|j: int| 0 <= j < 5 && j != 2 ==> (#[trigger] s[j]) is None) by {
                assert forall|j: int| 0 <= j < 5 && j != 2 implies (#[trigger] s[j]) is None by {
                    if j < 2 {
                        assert(!(s[j] is Some && s[2] is Some));
                    } else {
                        assert(!(s[2] is Some && s[j] is Some));
                    }
                }
            }
            return SetupArgs { command: Some(SetupCommand::Deps(deps::DepsArgs::from_values(vals))) };
        }
        if let Some(vals) = &p.subcommands[3] {
            assert(s[3] is Some);
            assert(values_fit(c.subcommands[3].args, s[3]->0));
            assert(forall|j: int| 0 <= j < 5 && j != 3 ==> (#[trigger] s[j]) is None) by {
                assert forall|j: int| 0 <= j < 5 && j != 3 implies (#[trigger] s[j]) is None by {
                    if j < 3 {
                        assert(!(s[j] is Some && s[3] is Some));
                    } else {
                        assert(!(s[3] is Some && s[j] is Some));
                    }
                }
            }
            return SetupArgs { command: Some(SetupCommand::Integrate(integrate::IntegrateArgs::from_values(vals))) };
        }
        if let Some(vals) = &p.subcommands[4] {
            assert(s[4] is Some);
            assert(values_fit(c.subcommands[4].args, s[4]->0));
            assert(forall|j: int| 0 <= j < 5 && j != 4 ==> (#[trigger] s[j]) is None) by {
                assert forall|j: int| 0 <= j < 5 && j != 4 implies (#[trigger] s[j]) is None by {
                    if j < 4 {
                        assert(!(s[j] is Some && s[4] is Some));
                    } else {
                        assert(!(s[4] is Some && s[j] is Some));
                    }
                }
            }
            return SetupArgs { command: Some(SetupCommand::Nvim(nvim::NvimArgs::from_values(vals))) };
        }
        assert(forall|k: int| 0 <= k < s.len() ==> (#[trigger] s[k]) is None) by {
            assert forall|k: int| 0 <= k < s.len() implies (#[trigger] s[k]) is None by {
                assert(k == 0 || k == 1 || k == 2 || k == 3 || k == 4);
            }
        }
        SetupArgs { command: None }
    }

    /// Parses a command line (the command's name first) as `clap` would for this
    /// command and its subcommands.
    pub fn try_parse_from(argv: &[&str]) -> (r: Result<SetupArgs, ArgsError>)
        ensures
            match clap_outcome(Self::spec_command(), argv_texts(argv@)) {
                Ok(p) => r matches Ok(a) && a.read_from(p.subcommands),
                Err((m, answered)) => r matches Err(e) && args_error_message(e) == m && (e is Answered
                    <==> answered),
            },
    {
        let spec = Self::command();
        proof {
            Self::lemma_command_ok();
        }
        match clap_parse(&spec, argv) {
            Ok(p) => Ok(Self::from_parsed(&p)),
            Err((m, answered)) => Err(
                if answered {
                    ArgsError::Answered(m)
                } else {
                    ArgsError::Rejected(m)
                },
            ),
        }
    }
}

/// A directory searched for the repository root, with the text of its `Cargo.toml` when
/// that is a readable file.
pub struct AncestorDir {
    pub path: String,
    pub cargo_toml: Option<String>,
}

/// Whether a directory is the repository root: its `Cargo.toml` declares a workspace.
pub open spec fn is_repo_root(cargo_toml: Option<Seq<char>>) -> bool {
    cargo_toml matches Some(c) && contains(c, "[workspace]"@)
}

/// The index of the first directory, from `i` on, that is the repository root, or the
/// number of directories.
pub open spec fn first_root(ds: Seq<(Seq<char>, Option<Seq<char>>)>, i: int) -> int
    decreases ds.len() - i,
{
    if i >= ds.len() || i < 0 {
        ds.len() as int
    } else if is_repo_root(ds[i].1) {
        i
    } else {
        first_root(ds, i + 1)
    }
}

/// The values of a list of searched directories.
pub open spec fn ancestor_views(ds: Seq<AncestorDir>) -> Seq<(Seq<char>, Option<Seq<char>>)> {
    ds.map_values(|d: AncestorDir| (d.path@, str_opt_of(d.cargo_toml)))
}

/// The repository root: the nearest of the directories from the current one upwards
/// whose `Cargo.toml` contains `[workspace]`; otherwise an error naming the start.
pub fn find_repo_root(ancestors: &Vec<AncestorDir>, start: &str) -> (r: Result<String, String>)
    ensures
        ({
            let ds = ancestor_views(ancestors@);
            let k = first_root(ds, 0);
            match r {
                Ok(p) => k < ds.len() && p@ == ds[k].0,
                Err(m) => k == ds.len() && m@
                    == "Could not find repository root (marker '[workspace]' in Cargo.toml) searching upwards from starting directory: "@
                    + start@,
            }
        }),
{
    let ghost ds = ancestor_views(ancestors@);
    let mut i: usize = 0;
    while i < ancestors.len()
        invariant
            i <= ancestors.len(),
            ds == ancestor_views(ancestors@),
            first_root(ds, 0) == first_root(ds, i as int),
        decreases ancestors.len() - i,
    {
        let d = &ancestors[i];
        assert(ds[i as int] == (d.path@, str_opt_of(d.cargo_toml)));
        match &d.cargo_toml {
            Some(c) => {
                if has_substring(&chars_of(c.as_str()), "[workspace]") {
                    return Ok(d.path.clone());
                }
            },
            None => {},
        }
        i = i + 1;
    }
    let mut m = "Could not find repository root (marker '[workspace]' in Cargo.toml) searching upwards from starting directory: ".to_string();
    m.append(start);
    Err(m)
}

/// The subcommand to run: the one given, else `all` with its defaults.
pub fn command_or_all(args: SetupArgs) -> (r: SetupCommand)
    ensures
        match args.command {
            Some(c) => r == c,
            None => r matches SetupCommand::All(a) && !a.force_nvim && !a.skip_nvim_plugins,
        },
{
    match args.command {
        Some(c) => c,
        None => SetupCommand::All(all::AllArgs::default()),
    }
}

/// The error when the repository root has no `Cargo.toml` file.
pub fn missing_marker_error(file_name: &str, cwd: &str) -> (r: String)
    ensures
        r@ == "Repository marker file ("@ + file_name@
            + ") not found searching upwards from current directory ("@ + cwd@
            + ").\nPlease run 'devrs setup' commands from within the DevRS repository clone."@,
{
    let mut m = "Repository marker file (".to_string();
    m.append(file_name);
    m.append(") not found searching upwards from current directory (");
    m.append(cwd);
    m.append(").\nPlease run 'devrs setup' commands from within the DevRS repository clone.");
    m
}

} // verus!
