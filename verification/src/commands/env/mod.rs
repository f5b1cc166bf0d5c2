//! `devrs env`: managing the core development environment container.

pub mod build_image;
pub mod exec;
pub mod logs;
pub mod prune;
pub mod rebuild;
pub mod shell;
pub mod status;
pub mod stop;

use crate::cli::{
    args_error_message, args_ok, argv_texts, clap_outcome, clap_parse, command_ok, outcome_fits,
    values_fit, values_models, ArgModel, ArgSpec, ArgsError, CommandModel, CommandSpec, LeafModel,
    LeafSpec, ParsedArgs, ValuesModel,
};
use crate::cli::str_opt_of;
use vstd::prelude::*;

verus! {

/// The line describing the command in its help.
pub const ABOUT: &'static str = "# Environment Command Group Arguments (`EnvArgs`)";

/// The line describing `env build` in the help of `env`.
pub const BUILD_ABOUT: &'static str = "Corresponds to `devrs env build`. Builds the core development environment Docker image. Holds `build::BuildArgs` for options like `--no-cache`, `--stage`";

/// The line describing `env exec` in the help of `env`.
pub const EXEC_ABOUT: &'static str = "Corresponds to `devrs env exec`. Executes a specified command inside the running core environment container. Holds `exec::ExecArgs` for options like `-i`, `-t`, `--user`, `--workdir`, and the command itself";

/// The line describing `env logs` in the help of `env`.
pub const LOGS_ABOUT: &'static str = "Corresponds to `devrs env logs`. Fetches and displays logs from the core environment container. Holds `logs::LogsArgs` for options like `--follow`, `--lines`, `--name`";

/// The line describing `env prune` in the help of `env`.
pub const PRUNE_ABOUT: &'static str = "Corresponds to `devrs env prune`. Removes stopped core environment containers. Holds `prune::PruneArgs` for the `--force` flag";

/// The line describing `env rebuild` in the help of `env`.
pub const REBUILD_ABOUT: &'static str = "Corresponds to `devrs env rebuild`. Stops, removes, and then rebuilds the core environment image and container. Holds `rebuild::RebuildArgs` for options like `--no-cache`, `--name`, `--with-plugins`";

/// The line describing `env shell` in the help of `env`.
pub const SHELL_ABOUT: &'static str = "Corresponds to `devrs env shell`. Starts an interactive shell session within the running core environment container. Holds `shell::ShellArgs` for the optional `--name` override";

/// The line describing `env status` in the help of `env`.
pub const STATUS_ABOUT: &'static str = "Corresponds to `devrs env status`. Displays detailed status information about the core environment container. Holds `status::StatusArgs` for the optional `--name` override";

/// The line describing `env stop` in the help of `env`.
pub const STOP_ABOUT: &'static str = "Corresponds to `devrs env stop`. Stops the running core environment container. Holds `stop::StopArgs` for options like `--name` and `--time`";

/// The subcommands of `devrs env`.
#[derive(Debug)]
pub enum EnvCommand {
    /// `devrs env build`.
    Build(build_image::BuildArgs),
    /// `devrs env exec`.
    Exec(self::exec::ExecArgs),
    /// `devrs env logs`.
    Logs(logs::LogsArgs),
    /// `devrs env prune`.
    Prune(prune::PruneArgs),
    /// `devrs env rebuild`.
    Rebuild(rebuild::RebuildArgs),
    /// `devrs env shell`.
    Shell(shell::ShellArgs),
    /// `devrs env status`.
    Status(status::StatusArgs),
    /// `devrs env stop`.
    Stop(stop::StopArgs),
}

/// Arguments of `devrs env`.
#[derive(Debug)]
pub struct EnvArgs {
    /// The subcommand given.
    pub command: EnvCommand,
}

impl EnvArgs {
    /// The command: no arguments of its own, one subcommand per variant.
    pub open spec fn spec_command() -> CommandModel {
        CommandModel {
            name: "env"@,
            about: Some(ABOUT@),
            args: Seq::empty(),
            subcommands: seq![
                LeafModel { name: "build"@, about: Some(BUILD_ABOUT@), args: build_image::BuildArgs::spec_args() },
                LeafModel { name: "exec"@, about: Some(EXEC_ABOUT@), args: self::exec::ExecArgs::spec_args() },
                LeafModel { name: "logs"@, about: Some(LOGS_ABOUT@), args: logs::LogsArgs::spec_args() },
                LeafModel { name: "prune"@, about: Some(PRUNE_ABOUT@), args: prune::PruneArgs::spec_args() },
                LeafModel { name: "rebuild"@, about: Some(REBUILD_ABOUT@), args: rebuild::RebuildArgs::spec_args() },
                LeafModel { name: "shell"@, about: Some(SHELL_ABOUT@), args: shell::ShellArgs::spec_args() },
                LeafModel { name: "status"@, about: Some(STATUS_ABOUT@), args: status::StatusArgs::spec_args() },
                LeafModel { name: "stop"@, about: Some(STOP_ABOUT@), args: stop::StopArgs::spec_args() },
            ],
            subcommand_required: true,
        }
    }

    /// The command.
    pub fn command() -> (r: CommandSpec)
        ensures
            r@ == Self::spec_command(),
    {
        let r = CommandSpec {
            name: "env",
            about: Some(ABOUT),
            args: Vec::new(),
            subcommands: vec![
                LeafSpec { name: "build", about: Some(BUILD_ABOUT), args: build_image::BuildArgs::args() },
                LeafSpec { name: "exec", about: Some(EXEC_ABOUT), args: self::exec::ExecArgs::args() },
                LeafSpec { name: "logs", about: Some(LOGS_ABOUT), args: logs::LogsArgs::args() },
                LeafSpec { name: "prune", about: Some(PRUNE_ABOUT), args: prune::PruneArgs::args() },
                LeafSpec { name: "rebuild", about: Some(REBUILD_ABOUT), args: rebuild::RebuildArgs::args() },
                LeafSpec { name: "shell", about: Some(SHELL_ABOUT), args: shell::ShellArgs::args() },
                LeafSpec { name: "status", about: Some(STATUS_ABOUT), args: status::StatusArgs::args() },
                LeafSpec { name: "stop", about: Some(STOP_ABOUT), args: stop::StopArgs::args() },
            ],
            subcommand_required: true,
        };
        assert(r@.args =~= Seq::<ArgModel>::empty());
        assert(r@.subcommands =~= Self::spec_command().subcommands);
        r
    }

    /// `clap` accepts the command.
    #[verifier::spinoff_prover]
    pub proof fn lemma_command_ok()
        ensures
            command_ok(Self::spec_command()),
    {
        build_image::BuildArgs::lemma_command_ok();
        self::exec::ExecArgs::lemma_command_ok();
        logs::LogsArgs::lemma_command_ok();
        prune::PruneArgs::lemma_command_ok();
        rebuild::RebuildArgs::lemma_command_ok();
        shell::ShellArgs::lemma_command_ok();
        status::StatusArgs::lemma_command_ok();
        stop::StopArgs::lemma_command_ok();
        reveal_strlit("build");
        reveal_strlit("exec");
        reveal_strlit("logs");
        reveal_strlit("prune");
        reveal_strlit("rebuild");
        reveal_strlit("shell");
        reveal_strlit("status");
        reveal_strlit("stop");
        reveal_strlit("help");
        assert("build"@[0] != "prune"@[0]);
        assert("build"@[0] != "shell"@[0]);
        assert("exec"@[0] != "logs"@[0]);
        assert("exec"@[0] != "stop"@[0]);
        assert("exec"@[0] != "help"@[0]);
        assert("logs"@[0] != "stop"@[0]);
        assert("logs"@[0] != "help"@[0]);
        assert("prune"@[0] != "shell"@[0]);
        assert("stop"@[0] != "help"@[0]);
        let c = Self::spec_command();
        let s = c.subcommands;
        assert(args_ok(c.args));
        assert(s[0].args == build_image::BuildArgs::spec_args());
        assert(args_ok(s[0].args));
        assert(s[1].args == self::exec::ExecArgs::spec_args());
        assert(args_ok(s[1].args));
        assert(s[2].args == logs::LogsArgs::spec_args());
        assert(args_ok(s[2].args));
        assert(s[3].args == prune::PruneArgs::spec_args());
        assert(args_ok(s[3].args));
        assert(s[4].args == rebuild::RebuildArgs::spec_args());
        assert(args_ok(s[4].args));
        assert(s[5].args == shell::ShellArgs::spec_args());
        assert(args_ok(s[5].args));
        assert(s[6].args == status::StatusArgs::spec_args());
        assert(args_ok(s[6].args));
        assert(s[7].args == stop::StopArgs::spec_args());
        assert(args_ok(s[7].args));
        assert forall|j: int| 0 <= j < s.len() implies args_ok(#[trigger] s[j].args)
            && s[j].name.len() > 0 && s[j].name != "help"@ by {
            assert(j == 0 || j == 1 || j == 2 || j == 3 || j == 4 || j == 5 || j == 6 || j == 7);
        }
        assert forall|i: int, j: int| 0 <= i < j < s.len() implies (#[trigger] s[i]).name
            != (#[trigger] s[j]).name by {
            assert(i == 0 || i == 1 || i == 2 || i == 3 || i == 4 || i == 5 || i == 6 || i == 7);
            assert(j == 0 || j == 1 || j == 2 || j == 3 || j == 4 || j == 5 || j == 6 || j == 7);
        }
    }

    /// Whether the subcommand and its fields are the parsed ones.
    pub open spec fn read_from(self, subs: Seq<Option<Seq<ValuesModel>>>) -> bool {
        match self.command {
            EnvCommand::Build(a) => subs[0] is Some && a.read_from(subs[0]->0),
            EnvCommand::Exec(a) => subs[1] is Some && a.read_from(subs[1]->0),
            EnvCommand::Logs(a) => subs[2] is Some && a.read_from(subs[2]->0),
            EnvCommand::Prune(a) => subs[3] is Some && a.read_from(subs[3]->0),
            EnvCommand::Rebuild(a) => subs[4] is Some && a.read_from(subs[4]->0),
            EnvCommand::Shell(a) => subs[5] is Some && a.read_from(subs[5]->0),
            EnvCommand::Status(a) => subs[6] is Some && a.read_from(subs[6]->0),
            EnvCommand::Stop(a) => subs[7] is Some && a.read_from(subs[7]->0),
        }
    }


    /// The subcommand and its fields from a parsed command line.
    pub fn from_parsed(p: &ParsedArgs) -> (r: EnvArgs)
        requires
            outcome_fits(Self::spec_command(), p@),
        ensures
            r.read_from(p@.subcommands),
    {
        let ghost s = p@.subcommands;
        let ghost c = Self::spec_command();
        assert(s.len() == 8);
        if let Some(vals) = &p.subcommands[0] {
            assert(s[0] is Some);
            assert(values_fit(c.subcommands[0].args, s[0]->0));
            assert(forall|j: int| 0 <= j < 8 && j != 0 ==> (#[trigger] s[j]) is None) by {
                assert forall|j: int| 0 <= j < 8 && j != 0 implies (#[trigger] s[j]) is None by {
                    if j < 0 {
                        assert(!(s[j] is Some && s[0] is Some));
                    } else {
                        assert(!(s[0] is Some && s[j] is Some));
                    }
                }
            }
            return EnvArgs { command: EnvCommand::Build(build_image::BuildArgs::from_values(vals)) };
        }
        if let Some(vals) = &p.subcommands[1] {
            assert(s[1] is Some);
            assert(values_fit(c.subcommands[1].args, s[1]->0));
            assert(forall|j: int| 0 <= j < 8 && j != 1 ==> (#[trigger] s[j]) is None) by {
                assert forall|j: int| 0 <= j < 8 && j != 1 implies (#[trigger] s[j]) is None by {
                    if j < 1 {
                        assert(!(s[j] is Some && s[1] is Some));
                    } else {
                        assert(!(s[1] is Some && s[j] is Some));
                    }
                }
            }
            return EnvArgs { command: EnvCommand::Exec(self::exec::ExecArgs::from_values(vals)) };
        }
        if let Some(vals) = &p.subcommands[2] {
            assert(s[2] is Some);
            assert(values_fit(c.subcommands[2].args, s[2]->0));
            assert(forall|j: int| 0 <= j < 8 && j != 2 ==> (#[trigger] s[j]) is None) by {
                assert forall|j: int| 0 <= j < 8 && j != 2 implies (#[trigger] s[j]) is None by {
                    if j < 2 {
                        assert(!(s[j] is Some && s[2] is Some));
                    } else {
                        assert(!(s[2] is Some && s[j] is Some));
                    }
                }
            }
            return EnvArgs { command: EnvCommand::Logs(logs::LogsArgs::from_values(vals)) };
        }
        if let Some(vals) = &p.subcommands[3] {
            assert(s[3] is Some);
            assert(values_fit(c.subcommands[3].args, s[3]->0));
            assert(forall|j: int| 0 <= j < 8 && j != 3 ==> (#[trigger] s[j]) is None) by {
                assert forall|j: int| 0 <= j < 8 && j != 3 implies (#[trigger] s[j]) is None by {
                    if j < 3 {
                        assert(!(s[j] is Some && s[3] is Some));
                    } else {
                        assert(!(s[3] is Some && s[j] is Some));
                    }
                }
            }
            return EnvArgs { command: EnvCommand::Prune(prune::PruneArgs::from_values(vals)) };
        }
        if let Some(vals) = &p.subcommands[4] {
            assert(s[4] is Some);
            assert(values_fit(c.subcommands[4].args, s[4]->0));
            assert(forall|j: int| 0 <= j < 8 && j != 4 ==> (#[trigger] s[j]) is None) by {
                assert forall|j: int| 0 <= j < 8 && j != 4 implies (#[trigger] s[j]) is None by {
                    if j < 4 {
                        assert(!(s[j] is Some && s[4] is Some));
                    } else {
                        assert(!(s[4] is Some && s[j] is Some));
                    }
                }
            }
            return EnvArgs { command: EnvCommand::Rebuild(rebuild::RebuildArgs::from_values(vals)) };
        }
        if let Some(vals) = &p.subcommands[5] {
            assert(s[5] is Some);
            assert(values_fit(c.subcommands[5].args, s[5]->0));
            assert(forall|j: int| 0 <= j < 8 && j != 5 ==> (#[trigger] s[j]) is None) by {
                assert forall|j: int| 0 <= j < 8 && j != 5 implies (#[trigger] s[j]) is None by {
                    if j < 5 {
                        assert(!(s[j] is Some && s[5] is Some));
                    } else {
                        assert(!(s[5] is Some && s[j] is Some));
                    }
                }
            }
            return EnvArgs { command: EnvCommand::Shell(shell::ShellArgs::from_values(vals)) };
        }
        if let Some(vals) = &p.subcommands[6] {
            assert(s[6] is Some);
            assert(values_fit(c.subcommands[6].args, s[6]->0));
            assert(forall|j: int| 0 <= j < 8 && j != 6 ==> (#[trigger] s[j]) is None) by {
                assert forall|j: int| 0 <= j < 8 && j != 6 implies (#[trigger] s[j]) is None by {
                    if j < 6 {
                        assert(!(s[j] is Some && s[6] is Some));
                    } else {
                        assert(!(s[6] is Some && s[j] is Some));
                    }
                }
            }
            return EnvArgs { command: EnvCommand::Status(status::StatusArgs::from_values(vals)) };
        }
        assert(exists|j: int| 0 <= j < s.len() && (#[trigger] s[j]) is Some);
        assert(s[7] is Some) by {
            let j = choose|j: int| 0 <= j < s.len() && (#[trigger] s[j]) is Some;
            assert(j == 0 || j == 1 || j == 2 || j == 3 || j == 4 || j == 5 || j == 6 || j == 7);
        }
        assert(values_fit(c.subcommands[7].args, s[7]->0));
        let vals = p.subcommands[7].as_ref().unwrap();
        EnvArgs { command: EnvCommand::Stop(stop::StopArgs::from_values(vals)) }
    }

    /// Parses a command line (the command's name first) as `clap` would for this
    /// command and its subcommands.
    pub fn try_parse_from(argv: &[&str]) -> (r: Result<EnvArgs, ArgsError>)
        ensures
            match clap_outcome(Self::spec_command(), argv_texts(argv@)) {
                Ok(p) => r matches Ok(a) && a.read_from(p.subcommands),
                Err((m, answered)) => r matches Err(e) && args_error_message(e) == m && (e is Answered
                    <==> answered),
            },
    {
        let spec = Self::command();
        proof {
            Self::lemma_command_ok();
        }
        match clap_parse(&spec, argv) {
            Ok(p) => Ok(Self::from_parsed(&p)),
            Err((m, answered)) => Err(
                if answered {
                    ArgsError::Answered(m)
                } else {
                    ArgsError::Rejected(m)
                },
            ),
        }
    }
}

/// The core environment container's name: the image name with `-instance`.
pub open spec fn core_env_container_name(image_name: Seq<char>) -> Seq<char> {
    image_name + "-instance"@
}

/// The core environment container's name for an image name.
pub fn get_core_env_container_name(image_name: &str) -> (r: String)
    ensures
        r@ == core_env_container_name(image_name@),
{
    let mut r = image_name.to_string();
    r.append("-instance");
    r
}

/// The container a command acts on: the one named on the command line, else the core
/// environment's.
pub open spec fn spec_target_container(name: Option<Seq<char>>, image_name: Seq<char>) -> Seq<char> {
    match name {
        Some(n) => n,
        None => core_env_container_name(image_name),
    }
}

/// The container a command acts on.
pub fn target_container(name: &Option<String>, image_name: &str) -> (r: String)
    ensures
        r@ == spec_target_container(str_opt_of(*name), image_name@),
{
    match name {
        Some(n) => n.clone(),
        None => get_core_env_container_name(image_name),
    }
}

/// An image reference: `NAME:TAG`.
pub fn image_reference(name: &str, tag: &str) -> (r: String)
    ensures
        r@ == name@ + ":"@ + tag@,
{
    let mut r = name.to_string();
    r.append(":");
    r.append(tag);
    r
}

/// The error for a missing core environment Dockerfile.
pub fn missing_dockerfile_error(path: &str) -> (r: String)
    ensures
        r@ == "Core environment Dockerfile not found at expected path: '"@ + path@
            + "'. Please run this command from the root of the devrs repository."@,
{
    let mut r = "Core environment Dockerfile not found at expected path: '".to_string();
    r.append(path);
    r.append("'. Please run this command from the root of the devrs repository.");
    r
}

/// The summary of a failed build of the core environment image.
pub fn build_failure_context(image: &str) -> (r: String)
    ensures
        r@ == "Failed to build core environment image '"@ + image@ + "'"@,
{
    let mut r = "Failed to build core environment image '".to_string();
    r.append(image);
    r.append("'");
    r
}

} // verus!
