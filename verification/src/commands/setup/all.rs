//! `devrs setup all`: every setup step in turn.

use crate::cli::{
    arg_model, arg_models, arg_ok, args_error_message, argv_texts, clap_outcome, clap_parse,
    command_ok, flag_of, leaf_command, leaf_command_spec, pair_ok, read_flag, value_fits,
    values_fit, values_models, ArgKind, ArgModel, ArgSpec, ArgValues, ArgsError, CommandModel,
    ValuesModel,
};
use crate::commands::setup::nvim::NvimArgs;
use crate::text::texts;
use vstd::prelude::*;

verus! {

/// The line describing the command in its help.
pub const ABOUT: &'static str = "Perform all DevRS setup tasks (deps, config, integrate, nvim)";

/// Arguments of `devrs setup all`.
#[derive(Debug)]
pub struct AllArgs {
    /// Whether to replace an existing Neovim configuration.
    pub force_nvim: bool,
    /// Whether to skip installing Neovim plugins.
    pub skip_nvim_plugins: bool,
}

impl Default for AllArgs {
    /// Every switch off.
    fn default() -> (r: AllArgs)
        ensures
            !r.force_nvim,
            !r.skip_nvim_plugins,
    {
        AllArgs { force_nvim: false, skip_nvim_plugins: false }
    }
}

impl AllArgs {
    /// The arguments, in order.
    pub open spec fn spec_args() -> Seq<ArgModel> {
        seq![
            arg_model("force_nvim"@, ArgKind::Flag).with_long("force-nvim"@).with_short('f')
                .with_help("Force Neovim setup steps: re-symlink init.lua (backing up existing), re-clone Packer if exists, re-run PackerSync. This flag is passed down directly to the `nvim` handler"@),
            arg_model("skip_nvim_plugins"@, ArgKind::Flag).with_long("skip-nvim-plugins"@)
                .with_help("Skip the Neovim Packer plugin installation step (PackerSync). Packer itself will still be installed/checked. This flag is passed down directly to the `nvim` handler"@),
        ]
    }

    /// The command.
    pub open spec fn spec_command() -> CommandModel {
        leaf_command("all"@, Some(ABOUT@), Self::spec_args())
    }

    /// The arguments, in order.
    pub fn args() -> (r: Vec<ArgSpec>)
        ensures
            arg_models(r@) == Self::spec_args(),
    {
        let r = vec![
            ArgSpec::new("force_nvim", ArgKind::Flag).long("force-nvim").short('f')
                .help("Force Neovim setup steps: re-symlink init.lua (backing up existing), re-clone Packer if exists, re-run PackerSync. This flag is passed down directly to the `nvim` handler"),
            ArgSpec::new("skip_nvim_plugins", ArgKind::Flag).long("skip-nvim-plugins")
                .help("Skip the Neovim Packer plugin installation step (PackerSync). Packer itself will still be installed/checked. This flag is passed down directly to the `nvim` handler"),
        ];
        assert(arg_models(r@) =~= Self::spec_args());
        r
    }

    /// `clap` accepts the command.
    #[verifier::spinoff_prover]
    pub proof fn lemma_command_ok()
        ensures
            command_ok(Self::spec_command()),
    {
        reveal_strlit("force_nvim");
        reveal_strlit("force-nvim");
        reveal_strlit("skip_nvim_plugins");
        reveal_strlit("skip-nvim-plugins");
        reveal_strlit("help");
        reveal_strlit("version");
        let a = Self::spec_args();
        assert forall|i: int| 0 <= i < a.len() implies arg_ok(#[trigger] a[i]) by {
            assert(i == 0 || i == 1);
        }
        assert forall|i: int, j: int| 0 <= i < j < a.len() implies pair_ok(
            #[trigger] a[i],
            #[trigger] a[j],
        ) by {
            assert(i == 0 || i == 1);
            assert(j == 0 || j == 1);
        }
    }

    /// Whether the fields are the parsed values.
    pub open spec fn read_from(self, vals: Seq<ValuesModel>) -> bool {
        &&& self.force_nvim == flag_of(vals[0])
        &&& self.skip_nvim_plugins == flag_of(vals[1])
    }

    /// The fields from parsed values.
    pub fn from_values(vals: &Vec<ArgValues>) -> (r: AllArgs)
        requires
            values_fit(Self::spec_args(), values_models(vals@)),
        ensures
            r.read_from(values_models(vals@)),
    {
        let ghost v = values_models(vals@);
        assert(value_fits(Self::spec_args()[0], v[0]));
        assert(value_fits(Self::spec_args()[1], v[1]));
        AllArgs { force_nvim: read_flag(&vals[0]), skip_nvim_plugins: read_flag(&vals[1]) }
    }

    /// Parses a command line (the command's name first) as `clap` would for these
    /// arguments.
    pub fn try_parse_from(argv: &[&str]) -> (r: Result<AllArgs, ArgsError>)
        ensures
            match clap_outcome(Self::spec_command(), argv_texts(argv@)) {
                Ok(p) => r matches Ok(a) && a.read_from(p.values),
                Err((m, answered)) => r matches Err(e) && args_error_message(e) == m && (e is Answered
                    <==> answered),
            },
    {
        let spec = leaf_command_spec("all", ABOUT, Self::args());
        proof {
            Self::lemma_command_ok();
        }
        match clap_parse(&spec, argv) {
            Ok(p) => Ok(Self::from_values(&p.values)),
            Err((m, answered)) => Err(
                if answered {
                    ArgsError::Answered(m)
                } else {
                    ArgsError::Rejected(m)
                },
            ),
        }
    }
}

/// The steps of `devrs setup all`.
#[derive(Debug, Clone, Copy, PartialEq, Eq, Structural)]
pub enum SetupStep {
    /// Checking the host tools.
    Deps,
    /// Linking `config.toml`.
    Config,
    /// The shell integration instructions.
    Integrate,
    /// Configuring Neovim.
    Nvim,
}

/// The steps, in the order they run; the first that fails stops the rest.
pub fn all_steps() -> (r: Vec<SetupStep>)
    ensures
        r@ == seq![SetupStep::Deps, SetupStep::Config, SetupStep::Integrate, SetupStep::Nvim],
{
    let r = vec![SetupStep::Deps, SetupStep::Config, SetupStep::Integrate, SetupStep::Nvim];
    assert(r@ =~= seq![SetupStep::Deps, SetupStep::Config, SetupStep::Integrate, SetupStep::Nvim]);
    r
}

/// The heading printed before a step (after an empty line).
pub open spec fn step_heading(s: SetupStep) -> Seq<char> {
    match s {
        SetupStep::Deps => "--- Step 1: Checking Dependencies ---"@,
        SetupStep::Config => "--- Step 2: Setting up config.toml ---"@,
        SetupStep::Integrate => "--- Step 3: Providing Shell Integration Instructions ---"@,
        SetupStep::Nvim => "--- Step 4: Configuring Neovim ---"@,
    }
}

/// The error that replaces a failing step's own.
pub open spec fn step_failure(s: SetupStep) -> Seq<char> {
    match s {
        SetupStep::Deps => "Dependency check failed. Please install missing tools manually."@,
        SetupStep::Config => "Failed to set up config.toml"@,
        SetupStep::Integrate => "Failed to provide shell integration instructions."@,
        SetupStep::Nvim => "Neovim setup failed."@,
    }
}

impl SetupStep {
    /// The heading printed before the step.
    pub fn heading(&self) -> (r: &'static str)
        ensures
            r@ == step_heading(*self),
    {
        match self {
            SetupStep::Deps => "--- Step 1: Checking Dependencies ---",
            SetupStep::Config => "--- Step 2: Setting up config.toml ---",
            SetupStep::Integrate => "--- Step 3: Providing Shell Integration Instructions ---",
            SetupStep::Nvim => "--- Step 4: Configuring Neovim ---",
        }
    }

    /// The error reported when the step fails.
    pub fn failure(&self) -> (r: &'static str)
        ensures
            r@ == step_failure(*self),
    {
        match self {
            SetupStep::Deps => "Dependency check failed. Please install missing tools manually.",
            SetupStep::Config => "Failed to set up config.toml",
            SetupStep::Integrate => "Failed to provide shell integration instructions.",
            SetupStep::Nvim => "Neovim setup failed.",
        }
    }
}

/// The line printed after each step that succeeded.
pub const STEP_RULE: &'static str = "-----------------------------------";

/// The lines printed once every step succeeded (after an empty line).
pub open spec fn all_done() -> Seq<Seq<char>> {
    seq![
        "✅ DevRS host setup tasks finished!"@,
        "IMPORTANT: Please ensure you manually add the 'source' line from Step 3 to your shell config"@,
        "           and then reload your shell or open a new terminal window."@,
    ]
}

/// The lines printed once every step succeeded.
pub fn all_done_lines() -> (r: Vec<String>)
    ensures
        texts(r@) == all_done(),
{
    let r = vec![
        "✅ DevRS host setup tasks finished!".to_string(),
        "IMPORTANT: Please ensure you manually add the 'source' line from Step 3 to your shell config".to_string(),
        "           and then reload your shell or open a new terminal window.".to_string(),
    ];
    assert(texts(r@) =~= all_done());
    r
}

impl AllArgs {
    /// The arguments handed to the Neovim step.
    pub fn nvim_args(&self) -> (r: NvimArgs)
        ensures
            r.force == self.force_nvim,
            r.skip_plugins == self.skip_nvim_plugins,
    {
        NvimArgs { force: self.force_nvim, skip_plugins: self.skip_nvim_plugins }
    }
}

} // verus!
