//! `devrs container`: building, running and managing application containers.

pub mod build_image;
pub mod logs;
pub mod rm;
pub mod rmi;
pub mod run;
pub mod shell;
pub mod status;
pub mod stop;

use crate::cli::{
    args_error_message, args_ok, argv_texts, clap_outcome, clap_parse, command_ok, outcome_fits,
    values_fit, values_models, ArgModel, ArgSpec, ArgsError, CommandModel, CommandSpec, LeafModel,
    LeafSpec, ParsedArgs, ValuesModel,
};
use vstd::prelude::*;

verus! {

/// The line describing the command in its help.
pub const ABOUT: &'static str = "# Container Command Group Arguments (`ContainerArgs`)";

/// The line describing `container build` in the help of `container`.
pub const BUILD_ABOUT: &'static str = "Corresponds to `devrs container build`. Builds an application Docker image, typically from the current directory's Dockerfile. Holds `build::BuildArgs` for options like `--tag`, `--file`, `--no-cache`";

/// The line describing `container logs` in the help of `container`.
pub const LOGS_ABOUT: &'static str = "Corresponds to `devrs container logs`. Fetches and displays logs from a specified running or stopped application container. Holds `logs::LogsArgs` for options like container name/ID, `--follow`, `--lines`";

/// The line describing `container rm` in the help of `container`.
pub const RM_ABOUT: &'static str = "Corresponds to `devrs container rm`. Removes one or more specified application containers. Holds `rm::RmArgs` for options like container names/IDs and `--force`";

/// The line describing `container rmi` in the help of `container`.
pub const RMI_ABOUT: &'static str = "Corresponds to `devrs container rmi`. Removes one or more specified application Docker images. Holds `rmi::RmiArgs` for options like image names/IDs and `--force`";

/// The line describing `container run` in the help of `container`.
pub const RUN_ABOUT: &'static str = "Corresponds to `devrs container run`. Creates and starts a new application container from a specified image. Holds `run::RunArgs` for options like `--image`, `--name`, `--port`, `--env`, `--detach`, `--rm`, and command overrides";

/// The line describing `container shell` in the help of `container`.
pub const SHELL_ABOUT: &'static str = "Corresponds to `devrs container shell`. Starts a temporary, interactive shell within a specified application image, mainly for debugging purposes. The container is auto-removed on exit. Holds `shell::ShellArgs` for options like image name and the command/shell to run";

/// The line describing `container status` in the help of `container`.
pub const STATUS_ABOUT: &'static str = "Corresponds to `devrs container status`. Displays the status of running or all application containers (excluding the core DevRS environment container). Holds `status::StatusArgs` for the `--all` flag";

/// The line describing `container stop` in the help of `container`.
pub const STOP_ABOUT: &'static str = "Corresponds to `devrs container stop`. Stops one or more specified running application containers. Holds `stop::StopArgs` for options like container names/IDs and `--time`";

/// The subcommands of `devrs container`.
#[derive(Debug)]
pub enum ContainerCommand {
    /// `devrs container build`.
    Build(build_image::BuildArgs),
    /// `devrs container logs`.
    Logs(logs::LogsArgs),
    /// `devrs container rm`.
    Rm(rm::RmArgs),
    /// `devrs container rmi`.
    Rmi(rmi::RmiArgs),
    /// `devrs container run`.
    Run(run::RunArgs),
    /// `devrs container shell`.
    Shell(shell::ShellArgs),
    /// `devrs container status`.
    Status(status::StatusArgs),
    /// `devrs container stop`.
    Stop(stop::StopArgs),
}

/// Arguments of `devrs container`.
#[derive(Debug)]
pub struct ContainerArgs {
    /// The subcommand given.
    pub command: ContainerCommand,
}

impl ContainerArgs {
    /// The command: no arguments of its own, one subcommand per variant.
    pub open spec fn spec_command() -> CommandModel {
        CommandModel {
            name: "container"@,
            about: Some(ABOUT@),
            args: Seq::empty(),
            subcommands: seq![
                LeafModel { name: "build"@, about: Some(BUILD_ABOUT@), args: build_image::BuildArgs::spec_args() },
                LeafModel { name: "logs"@, about: Some(LOGS_ABOUT@), args: logs::LogsArgs::spec_args() },
                LeafModel { name: "rm"@, about: Some(RM_ABOUT@), args: rm::RmArgs::spec_args() },
                LeafModel { name: "rmi"@, about: Some(RMI_ABOUT@), args: rmi::RmiArgs::spec_args() },
                LeafModel { name: "run"@, about: Some(RUN_ABOUT@), args: run::RunArgs::spec_args() },
                LeafModel { name: "shell"@, about: Some(SHELL_ABOUT@), args: shell::ShellArgs::spec_args() },
                LeafModel { name: "status"@, about: Some(STATUS_ABOUT@), args: status::StatusArgs::spec_args() },
                LeafModel { name: "stop"@, about: Some(STOP_ABOUT@), args: stop::StopArgs::spec_args() },
            ],
            subcommand_required: true,
        }
    }

    /// The command.
    pub fn command() -> (r: CommandSpec)
        ensures
            r@ == Self::spec_command(),
    {
        let r = CommandSpec {
            name: "container",
            about: Some(ABOUT),
            args: Vec::new(),
            subcommands: vec![
                LeafSpec { name: "build", about: Some(BUILD_ABOUT), args: build_image::BuildArgs::args() },
                LeafSpec { name: "logs", about: Some(LOGS_ABOUT), args: logs::LogsArgs::args() },
                LeafSpec { name: "rm", about: Some(RM_ABOUT), args: rm::RmArgs::args() },
                LeafSpec { name: "rmi", about: Some(RMI_ABOUT), args: rmi::RmiArgs::args() },
                LeafSpec { name: "run", about: Some(RUN_ABOUT), args: run::RunArgs::args() },
                LeafSpec { name: "shell", about: Some(SHELL_ABOUT), args: shell::ShellArgs::args() },
                LeafSpec { name: "status", about: Some(STATUS_ABOUT), args: status::StatusArgs::args() },
                LeafSpec { name: "stop", about: Some(STOP_ABOUT), args: stop::StopArgs::args() },
            ],
            subcommand_required: true,
        };
        assert(r@.args =~= Seq::<ArgModel>::empty());
        assert(r@.subcommands =~= Self::spec_command().subcommands);
        r
    }

    /// `clap` accepts the command.
    #[verifier::spinoff_prover]
    pub proof fn lemma_command_ok()
        ensures
            command_ok(Self::spec_command()),
    {
        build_image::BuildArgs::lemma_command_ok();
        logs::LogsArgs::lemma_command_ok();
        rm::RmArgs::lemma_command_ok();
        rmi::RmiArgs::lemma_command_ok();
        run::RunArgs::lemma_command_ok();
        shell::ShellArgs::lemma_command_ok();
        status::StatusArgs::lemma_command_ok();
        stop::StopArgs::lemma_command_ok();
        reveal_strlit("build");
        reveal_strlit("logs");
        reveal_strlit("rm");
        reveal_strlit("rmi");
        reveal_strlit("run");
        reveal_strlit("shell");
        reveal_strlit("status");
        reveal_strlit("stop");
        reveal_strlit("help");
        assert("build"@[0] != "shell"@[0]);
        assert("logs"@[0] != "stop"@[0]);
        assert("logs"@[0] != "help"@[0]);
        assert("rmi"@[1] != "run"@[1]);
        assert("stop"@[0] != "help"@[0]);
        let c = Self::spec_command();
        let s = c.subcommands;
        assert(args_ok(c.args));
        assert(s[0].args == build_image::BuildArgs::spec_args());
        assert(args_ok(s[0].args));
        assert(s[1].args == logs::LogsArgs::spec_args());
        assert(args_ok(s[1].args));
        assert(s[2].args == rm::RmArgs::spec_args());
        assert(args_ok(s[2].args));
        assert(s[3].args == rmi::RmiArgs::spec_args());
        assert(args_ok(s[3].args));
        assert(s[4].args == run::RunArgs::spec_args());
        assert(args_ok(s[4].args));
        assert(s[5].args == shell::ShellArgs::spec_args());
        assert(args_ok(s[5].args));
        assert(s[6].args == status::StatusArgs::spec_args());
        assert(args_ok(s[6].args));
        assert(s[7].args == stop::StopArgs::spec_args());
        assert(args_ok(s[7].args));
        assert forall|j: int| 0 <= j < s.len() implies args_ok(#[trigger] s[j].args)
            && s[j].name.len() > 0 && s[j].name != "help"@ by {
            assert(j == 0 || j == 1 || j == 2 || j == 3 || j == 4 || j == 5 || j == 6 || j == 7);
        }
        assert forall|i: int, j: int| 0 <= i < j < s.len() implies (#[trigger] s[i]).name
            != (#[trigger] s[j]).name by {
            assert(i == 0 || i == 1 || i == 2 || i == 3 || i == 4 || i == 5 || i == 6 || i == 7);
            assert(j == 0 || j == 1 || j == 2 || j == 3 || j == 4 || j == 5 || j == 6 || j == 7);
        }
    }

    /// Whether the subcommand and its fields are the parsed ones.
    pub open spec fn read_from(self, subs: Seq<Option<Seq<ValuesModel>>>) -> bool {
        match self.command {
            ContainerCommand::Build(a) => subs[0] is Some && a.read_from(subs[0]->0),
            ContainerCommand::Logs(a) => subs[1] is Some && a.read_from(subs[1]->0),
            ContainerCommand::Rm(a) => subs[2] is Some && a.read_from(subs[2]->0),
            ContainerCommand::Rmi(a) => subs[3] is Some && a.read_from(subs[3]->0),
            ContainerCommand::Run(a) => subs[4] is Some && a.read_from(subs[4]->0),
            ContainerCommand::Shell(a) => subs[5] is Some && a.read_from(subs[5]->0),
            ContainerCommand::Status(a) => subs[6] is Some && a.read_from(subs[6]->0),
            ContainerCommand::Stop(a) => subs[7] is Some && a.read_from(subs[7]->0),
        }
    }


    /// The subcommand and its fields from a parsed command line.
    pub fn from_parsed(p: &ParsedArgs) -> (r: ContainerArgs)
        requires
            outcome_fits(Self::spec_command(), p@),
        ensures
            r.read_from(p@.subcommands),
    {
        let ghost s = p@.subcommands;
        let ghost c = Self::spec_command();
        assert(s.len() == 8);
        if let Some(vals) = &p.subcommands[0] {
            assert(s[0] is Some);
            assert(values_fit(c.subcommands[0].args, s[0]->0));
            assert(forall|j: int| 0 <= j < 8 && j != 0 ==> (#[trigger] s[j]) is None) by {
                assert forall|j: int| 0 <= j < 8 && j != 0 implies (#[trigger] s[j]) is None by {
                    if j < 0 {
                        assert(!(s[j] is Some && s[0] is Some));
                    } else {
                        assert(!(s[0] is Some && s[j] is Some));
                    }
                }
            }
            return ContainerArgs { command: ContainerCommand::Build(build_image::BuildArgs::from_values(vals)) };
        }
        if let Some(vals) = &p.subcommands[1] {
            assert(s[1] is Some);
            assert(values_fit(c.subcommands[1].args, s[1]->0));
            assert(forall|j: int| 0 <= j < 8 && j != 1 ==> (#[trigger] s[j]) is None) by {
                assert forall|j: int| 0 <= j < 8 && j != 1 implies (#[trigger] s[j]) is None by {
                    if j < 1 {
                        assert(!(s[j] is Some && s[1] is Some));
                    } else {
                        assert(!(s[1] is Some && s[j] is Some));
                    }
                }
            }
            return ContainerArgs { command: ContainerCommand::Logs(logs::LogsArgs::from_values(vals)) };
        }
        if let Some(vals) = &p.subcommands[2] {
            assert(s[2] is Some);
            assert(values_fit(c.subcommands[2].args, s[2]->0));
            assert(forall|j: int| 0 <= j < 8 && j != 2 ==> (#[trigger] s[j]) is None) by {
                assert forall|j: int| 0 <= j < 8 && j != 2 implies (#[trigger] s[j]) is None by {
                    if j < 2 {
                        assert(!(s[j] is Some && s[2] is Some));
                    } else {
                        assert(!(s[2] is Some && s[j] is Some));
                    }
                }
            }
            return ContainerArgs { command: ContainerCommand::Rm(rm::RmArgs::from_values(vals)) };
        }
        if let Some(vals) = &p.subcommands[3] {
            assert(s[3] is Some);
            assert(values_fit(c.subcommands[3].args, s[3]->0));
            assert(forall|j: int| 0 <= j < 8 && j != 3 ==> (#[trigger] s[j]) is None) by {
                assert forall|j: int| 0 <= j < 8 && j != 3 implies (#[trigger] s[j]) is None by {
                    if j < 3 {
                        assert(!(s[j] is Some && s[3] is Some));
                    } else {
                        assert(!(s[3] is Some && s[j] is Some));
                    }
                }
            }
            return ContainerArgs { command: ContainerCommand::Rmi(rmi::RmiArgs::from_values(vals)) };
        }
        if let Some(vals) = &p.subcommands[4] {
            assert(s[4] is Some);
            assert(values_fit(c.subcommands[4].args, s[4]->0));
            assert(forall|j: int| 0 <= j < 8 && j != 4 ==> (#[trigger] s[j]) is None) by {
                assert forall|j: int| 0 <= j < 8 && j != 4 implies (#[trigger] s[j]) is None by {
                    if j < 4 {
                        assert(!(s[j] is Some && s[4] is Some));
                    } else {
                        assert(!(s[4] is Some && s[j] is Some));
                    }
                }
            }
            return ContainerArgs { command: ContainerCommand::Run(run::RunArgs::from_values(vals)) };
        }
        if let Some(vals) = &p.subcommands[5] {
            assert(s[5] is Some);
            assert(values_fit(c.subcommands[5].args, s[5]->0));
            assert(forall|j: int| 0 <= j < 8 && j != 5 ==> (#[trigger] s[j]) is None) by {
                assert forall|j: int| 0 <= j < 8 && j != 5 implies (#[trigger] s[j]) is None by {
                    if j < 5 {
                        assert(!(s[j] is Some && s[5] is Some));
                    } else {
                        assert(!(s[5] is Some && s[j] is Some));
                    }
                }
            }
            return ContainerArgs { command: ContainerCommand::Shell(shell::ShellArgs::from_values(vals)) };
        }
        if let Some(vals) = &p.subcommands[6] {
            assert(s[6] is Some);
            assert(values_fit(c.subcommands[6].args, s[6]->0));
            assert(forall|j: int| 0 <= j < 8 && j != 6 ==> (#[trigger] s[j]) is None) by {
                assert forall|j: int| 0 <= j < 8 && j != 6 implies (#[trigger] s[j]) is None by {
                    if j < 6 {
                        assert(!(s[j] is Some && s[6] is Some));
                    } else {
                        assert(!(s[6] is Some && s[j] is Some));
                    }
                }
            }
            return ContainerArgs { command: ContainerCommand::Status(status::StatusArgs::from_values(vals)) };
        }
        assert(exists|j: int| 0 <= j < s.len() && (#[trigger] s[j]) is Some);
        assert(s[7] is Some) by {
            let j = choose|j: int| 0 <= j < s.len() && (#[trigger] s[j]) is Some;
            assert(j == 0 || j == 1 || j == 2 || j == 3 || j == 4 || j == 5 || j == 6 || j == 7);
        }
        assert(values_fit(c.subcommands[7].args, s[7]->0));
        let vals = p.subcommands[7].as_ref().unwrap();
        ContainerArgs { command: ContainerCommand::Stop(stop::StopArgs::from_values(vals)) }
    }

    /// Parses a command line (the command's name first) as `clap` would for this
    /// command and its subcommands.
    pub fn try_parse_from(argv: &[&str]) -> (r: Result<ContainerArgs, ArgsError>)
        ensures
            match clap_outcome(Self::spec_command(), argv_texts(argv@)) {
                Ok(p) => r matches Ok(a) && a.read_from(p.subcommands),
                Err((m, answered)) => r matches Err(e) && args_error_message(e) == m && (e is Answered
                    <==> answered),
            },
    {
        let spec = Self::command();
        proof {
            Self::lemma_command_ok();
        }
        match clap_parse(&spec, argv) {
            Ok(p) => Ok(Self::from_parsed(&p)),
            Err((m, answered)) => Err(
                if answered {
                    ArgsError::Answered(m)
                } else {
                    ArgsError::Rejected(m)
                },
            ),
        }
    }
}

} // verus!
