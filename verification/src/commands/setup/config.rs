//! `devrs setup config`: linking the user configuration file.

use crate::cli::{
    arg_model, arg_models, args_error_message, argv_texts, clap_outcome, clap_parse, command_ok,
    leaf_command, leaf_command_spec, values_fit, values_models, ArgKind, ArgModel, ArgSpec,
    ArgValues, ArgsError, CommandModel, ValuesModel,
};
use vstd::prelude::*;

verus! {

/// The line describing the command in its help.
pub const ABOUT: &'static str = "Set up the user configuration symlink for DevRS";

/// Arguments of `devrs setup config`.
#[derive(Debug)]
pub struct ConfigArgs {}

impl Default for ConfigArgs {
    /// Every switch off.
    fn default() -> (r: ConfigArgs)
        ensures
            r == (ConfigArgs {}),
    {
        ConfigArgs {}
    }
}

impl ConfigArgs {
    /// The arguments, in order.
    pub open spec fn spec_args() -> Seq<ArgModel> {
        Seq::empty()
    }

    /// The command.
    pub open spec fn spec_command() -> CommandModel {
        leaf_command("config"@, Some(ABOUT@), Self::spec_args())
    }

    /// The arguments, in order.
    pub fn args() -> (r: Vec<ArgSpec>)
        ensures
            arg_models(r@) == Self::spec_args(),
    {
        let r: Vec<ArgSpec> = Vec::new();
        assert(arg_models(r@) =~= Self::spec_args());
        r
    }

    /// `clap` accepts the command.
    #[verifier::spinoff_prover]
    pub proof fn lemma_command_ok()
        ensures
            command_ok(Self::spec_command()),
    {
        reveal_strlit("help");
        reveal_strlit("version");
        let a = Self::spec_args();
    }

    /// Whether the fields are the parsed values.
    pub open spec fn read_from(self, vals: Seq<ValuesModel>) -> bool {
        true
    }

    /// The fields from parsed values.
    pub fn from_values(vals: &Vec<ArgValues>) -> (r: ConfigArgs)
        requires
            values_fit(Self::spec_args(), values_models(vals@)),
        ensures
            r.read_from(values_models(vals@)),
    {
        ConfigArgs {}
    }

    /// Parses a command line (the command's name first) as `clap` would for these
    /// arguments.
    pub fn try_parse_from(argv: &[&str]) -> (r: Result<ConfigArgs, ArgsError>)
        ensures
            match clap_outcome(Self::spec_command(), argv_texts(argv@)) {
                Ok(p) => r matches Ok(a) && a.read_from(p.values),
                Err((m, answered)) => r matches Err(e) && args_error_message(e) == m && (e is Answered
                    <==> answered),
            },
    {
        let spec = leaf_command_spec("config", ABOUT, Self::args());
        proof {
            Self::lemma_command_ok();
        }
        match clap_parse(&spec, argv) {
            Ok(p) => Ok(Self::from_values(&p.values)),
            Err((m, answered)) => Err(
                if answered {
                    ArgsError::Answered(m)
                } else {
                    ArgsError::Rejected(m)
                },
            ),
        }
    }
}

/// The configuration file DevRS reads, in `presets/` and in the user's config directory.
pub const ACTIVE_CONFIG_FILENAME: &'static str = "config.toml";

/// The template the configuration file is first made from.
pub const SAMPLE_CONFIG_FILENAME: &'static str = "config_sample.toml";

/// What to do about `presets/config.toml`.
pub enum ConfigStep {
    /// It exists: leave it, and show this line.
    Keep(String),
    /// Copy the sample over it, after showing this line.
    CopySample(String),
}

/// What to do about `presets/config.toml`: keep it when it exists, else make it from the
/// sample, which must then be a file.
pub fn config_step(active_exists: bool, sample_is_file: bool) -> (r: Result<ConfigStep, String>)
    ensures
        active_exists ==> (r matches Ok(ConfigStep::Keep(l)) && l@
            == "Found existing config.toml in presets/, skipping creation from sample."@),
        !active_exists && sample_is_file ==> (r matches Ok(ConfigStep::CopySample(l)) && l@
            == "Creating config.toml from sample template config_sample.toml..."@),
        !active_exists && !sample_is_file ==> (r matches Err(m) && m@
            == "Required configuration template 'config_sample.toml' not found in the repository presets.\nCannot proceed with setup without this template file."@),
{
    if active_exists {
        let mut l = "Found existing ".to_string();
        l.append(ACTIVE_CONFIG_FILENAME);
        l.append(" in presets/, skipping creation from sample.");
        proof {
            reveal_strlit("Found existing ");
            reveal_strlit(" in presets/, skipping creation from sample.");
            reveal_strlit("config.toml");
            reveal_strlit("Found existing config.toml in presets/, skipping creation from sample.");
        }
        assert(l@ =~= "Found existing config.toml in presets/, skipping creation from sample."@);
        Ok(ConfigStep::Keep(l))
    } else if sample_is_file {
        let mut l = "Creating ".to_string();
        l.append(ACTIVE_CONFIG_FILENAME);
        l.append(" from sample template ");
        l.append(SAMPLE_CONFIG_FILENAME);
        l.append("...");
        proof {
            reveal_strlit("Creating ");
            reveal_strlit(" from sample template ");
            reveal_strlit("config.toml");
            reveal_strlit("config_sample.toml");
            reveal_strlit("...");
            reveal_strlit("Creating config.toml from sample template config_sample.toml...");
        }
        assert(l@ =~= "Creating config.toml from sample template config_sample.toml..."@);
        Ok(ConfigStep::CopySample(l))
    } else {
        let mut m = "Required configuration template '".to_string();
        m.append(SAMPLE_CONFIG_FILENAME);
        m.append("' not found in the repository presets.\nCannot proceed with setup without this template file.");
        proof {
            reveal_strlit("Required configuration template '");
            reveal_strlit("config_sample.toml");
            reveal_strlit("' not found in the repository presets.\nCannot proceed with setup without this template file.");
            reveal_strlit("Required configuration template 'config_sample.toml' not found in the repository presets.\nCannot proceed with setup without this template file.");
        }
        assert(m@ =~= "Required configuration template 'config_sample.toml' not found in the repository presets.\nCannot proceed with setup without this template file."@);
        Err(m)
    }
}

/// The line shown before the user configuration is linked.
pub fn symlink_line(user_config: &str, repo_config: &str) -> (r: String)
    ensures
        r@ == "Symlinking user config ("@ + user_config@ + ") -> repo config ("@ + repo_config@
            + ")..."@,
{
    let mut l = "Symlinking user config (".to_string();
    l.append(user_config);
    l.append(") -> repo config (");
    l.append(repo_config);
    l.append(")...");
    l
}

} // verus!
