//! `devrs blueprint`: listing, inspecting and instantiating project blueprints.

pub mod create;
pub mod info;
pub mod list;
pub mod readme;
pub mod utils;

use crate::cli::{
    args_error_message, args_ok, argv_texts, clap_outcome, clap_parse, command_ok, outcome_fits,
    values_fit, values_models, ArgModel, ArgSpec, ArgsError, CommandModel, CommandSpec, LeafModel,
    LeafSpec, ParsedArgs, ValuesModel,
};
use vstd::prelude::*;

verus! {

/// The line describing the command in its help.
pub const ABOUT: &'static str = "# Blueprint Command Group Arguments (`BlueprintArgs`)";

/// The line describing `blueprint list` in the help of `blueprint`.
pub const LIST_ABOUT: &'static str = "Corresponds to `devrs blueprint list`. Lists available project blueprints found in the configured directory. Holds `list::ListArgs` (which is currently an empty struct)";

/// The line describing `blueprint create` in the help of `blueprint`.
pub const CREATE_ABOUT: &'static str = "Corresponds to `devrs blueprint create`. Creates a new project directory by rendering a specified blueprint template. Holds `create::CreateArgs`, containing options like `--lang`, `--output`, `--var`, etc";

/// The line describing `blueprint info` in the help of `blueprint`.
pub const INFO_ABOUT: &'static str = "Corresponds to `devrs blueprint info`. Shows detailed information about a specific blueprint template. Holds `info::InfoArgs`, containing the name of the blueprint to inspect";

/// The subcommands of `devrs blueprint`.
#[derive(Debug)]
pub enum BlueprintCommand {
    /// `devrs blueprint list`.
    List(list::ListArgs),
    /// `devrs blueprint create`.
    Create(create::CreateArgs),
    /// `devrs blueprint info`.
    Info(info::InfoArgs),
}

/// Arguments of `devrs blueprint`.
#[derive(Debug)]
pub struct BlueprintArgs {
    /// The subcommand given.
    pub command: BlueprintCommand,
}

impl BlueprintArgs {
    /// The command: no arguments of its own, one subcommand per variant.
    pub open spec fn spec_command() -> CommandModel {
        CommandModel {
            name: "blueprint"@,
            about: Some(ABOUT@),
            args: Seq::empty(),
            subcommands: seq![
                LeafModel { name: "list"@, about: Some(LIST_ABOUT@), args: list::ListArgs::spec_args() },
                LeafModel { name: "create"@, about: Some(CREATE_ABOUT@), args: create::CreateArgs::spec_args() },
                LeafModel { name: "info"@, about: Some(INFO_ABOUT@), args: info::InfoArgs::spec_args() },
            ],
            subcommand_required: true,
        }
    }

    /// The command.
    pub fn command() -> (r: CommandSpec)
        ensures
            r@ == Self::spec_command(),
    {
        let r = CommandSpec {
            name: "blueprint",
            about: Some(ABOUT),
            args: Vec::new(),
            subcommands: vec![
                LeafSpec { name: "list", about: Some(LIST_ABOUT), args: list::ListArgs::args() },
                LeafSpec { name: "create", about: Some(CREATE_ABOUT), args: create::CreateArgs::args() },
                LeafSpec { name: "info", about: Some(INFO_ABOUT), args: info::InfoArgs::args() },
            ],
            subcommand_required: true,
        };
        assert(r@.args =~= Seq::<ArgModel>::empty());
        assert(r@.subcommands =~= Self::spec_command().subcommands);
        r
    }

    /// `clap` accepts the command.
    #[verifier::spinoff_prover]
    pub proof fn lemma_command_ok()
        ensures
            command_ok(Self::spec_command()),
    {
        list::ListArgs::lemma_command_ok();
        create::CreateArgs::lemma_command_ok();
        info::InfoArgs::lemma_command_ok();
        reveal_strlit("list");
        reveal_strlit("create");
        reveal_strlit("info");
        reveal_strlit("help");
        assert("list"@[0] != "info"@[0]);
        assert("list"@[0] != "help"@[0]);
        assert("info"@[0] != "help"@[0]);
        let c = Self::spec_command();
        let s = c.subcommands;
        assert(args_ok(c.args));
        assert(s[0].args == list::ListArgs::spec_args());
        assert(args_ok(s[0].args));
        assert(s[1].args == create::CreateArgs::spec_args());
        assert(args_ok(s[1].args));
        assert(s[2].args == info::InfoArgs::spec_args());
        assert(args_ok(s[2].args));
        assert forall|j: int| 0 <= j < s.len() implies args_ok(#[trigger] s[j].args)
            && s[j].name.len() > 0 && s[j].name != "help"@ by {
            assert(j == 0 || j == 1 || j == 2);
        }
        assert forall|i: int, j: int| 0 <= i < j < s.len() implies (#[trigger] s[i]).name
            != (#[trigger] s[j]).name by {
            assert(i == 0 || i == 1 || i == 2);
            assert(j == 0 || j == 1 || j == 2);
        }
    }

    /// Whether the subcommand and its fields are the parsed ones.
    pub open spec fn read_from(self, subs: Seq<Option<Seq<ValuesModel>>>) -> bool {
        match self.command {
            BlueprintCommand::List(a) => subs[0] is Some && a.read_from(subs[0]->0),
            BlueprintCommand::Create(a) => subs[1] is Some && a.read_from(subs[1]->0),
            BlueprintCommand::Info(a) => subs[2] is Some && a.read_from(subs[2]->0),
        }
    }


    /// The subcommand and its fields from a parsed command line.
    pub fn from_parsed(p: &ParsedArgs) -> (r: BlueprintArgs)
        requires
            outcome_fits(Self::spec_command(), p@),
        ensures
            r.read_from(p@.subcommands),
    {
        let ghost s = p@.subcommands;
        let ghost c = Self::spec_command();
        assert(s.len() == 3);
        if let Some(vals) = &p.subcommands[0] {
            assert(s[0] is Some);
            assert(values_fit(c.subcommands[0].args, s[0]->0));
            assert(forall|j: int| 0 <= j < 3 && j != 0 ==> (#[trigger] s[j]) is None) by {
                assert forall|j: int| 0 <= j < 3 && j != 0 implies (#[trigger] s[j]) is None by {
                    if j < 0 {
                        assert(!(s[j] is Some && s[0] is Some));
                    } else {
                        assert(!(s[0] is Some && s[j] is Some));
                    }
                }
            }
            return BlueprintArgs { command: BlueprintCommand::List(list::ListArgs::from_values(vals)) };
        }
        if let Some(vals) = &p.subcommands[1] {
            assert(s[1] is Some);
            assert(values_fit(c.subcommands[1].args, s[1]->0));
            assert(forall|j: int| 0 <= j < 3 && j != 1 ==> (#[trigger] s[j]) is None) by {
                assert forall|j: int| 0 <= j < 3 && j != 1 implies (#[trigger] s[j]) is None by {
                    if j < 1 {
                        assert(!(s[j] is Some && s[1] is Some));
                    } else {
                        assert(!(s[1] is Some && s[j] is Some));
                    }
                }
            }
            return BlueprintArgs { command: BlueprintCommand::Create(create::CreateArgs::from_values(vals)) };
        }
        assert(exists|j: int| 0 <= j < s.len() && (#[trigger] s[j]) is Some);
        assert(s[2] is Some) by {
            let j = choose|j: int| 0 <= j < s.len() && (#[trigger] s[j]) is Some;
            assert(j == 0 || j == 1 || j == 2);
        }
        assert(values_fit(c.subcommands[2].args, s[2]->0));
        let vals = p.subcommands[2].as_ref().unwrap();
        BlueprintArgs { command: BlueprintCommand::Info(info::InfoArgs::from_values(vals)) }
    }

    /// Parses a command line (the command's name first) as `clap` would for this
    /// command and its subcommands.
    pub fn try_parse_from(argv: &[&str]) -> (r: Result<BlueprintArgs, ArgsError>)
        ensures
            match clap_outcome(Self::spec_command(), argv_texts(argv@)) {
                Ok(p) => r matches Ok(a) && a.read_from(p.subcommands),
                Err((m, answered)) => r matches Err(e) && args_error_message(e) == m && (e is Answered
                    <==> answered),
            },
    {
        let spec = Self::command();
        proof {
            Self::lemma_command_ok();
        }
        match clap_parse(&spec, argv) {
            Ok(p) => Ok(Self::from_parsed(&p)),
            Err((m, answered)) => Err(
                if answered {
                    ArgsError::Answered(m)
                } else {
                    ArgsError::Rejected(m)
                },
            ),
        }
    }
}

} // verus!
