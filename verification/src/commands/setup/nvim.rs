//! `devrs setup nvim`: configuring Neovim.

use crate::cli::{
    arg_model, arg_models, arg_ok, args_error_message, argv_texts, clap_outcome, clap_parse,
    command_ok, flag_of, leaf_command, leaf_command_spec, pair_ok, read_flag, value_fits,
    values_fit, values_models, ArgKind, ArgModel, ArgSpec, ArgValues, ArgsError, CommandModel,
    ValuesModel,
};
use crate::commands::setup::deps::DepCheck;
use crate::text::{push_text, texts};
use vstd::prelude::*;

verus! {

/// The line describing the command in its help.
pub const ABOUT: &'static str = "Configure Neovim to use DevRS settings and install Packer/plugins";

/// Arguments of `devrs setup nvim`.
#[derive(Debug)]
pub struct NvimArgs {
    /// Whether to replace an existing configuration.
    pub force: bool,
    /// Whether to skip installing plugins.
    pub skip_plugins: bool,
}

impl Default for NvimArgs {
    /// Every switch off.
    fn default() -> (r: NvimArgs)
        ensures
            !r.force,
            !r.skip_plugins,
    {
        NvimArgs { force: false, skip_plugins: false }
    }
}

impl NvimArgs {
    /// The arguments, in order.
    pub open spec fn spec_args() -> Seq<ArgModel> {
        seq![
            arg_model("force"@, ArgKind::Flag).with_long("force"@).with_short('f')
                .with_help("Force setup steps: re-symlink init.lua (backing up existing), re-clone Packer, re-run PackerSync"@),
            arg_model("skip_plugins"@, ArgKind::Flag).with_long("skip-plugins"@)
                .with_help("Skip the Packer plugin installation step (PackerSync). Packer itself will still be installed if missing or forced"@),
        ]
    }

    /// The command.
    pub open spec fn spec_command() -> CommandModel {
        leaf_command("nvim"@, Some(ABOUT@), Self::spec_args())
    }

    /// The arguments, in order.
    pub fn args() -> (r: Vec<ArgSpec>)
        ensures
            arg_models(r@) == Self::spec_args(),
    {
        let r = vec![
            ArgSpec::new("force", ArgKind::Flag).long("force").short('f')
                .help("Force setup steps: re-symlink init.lua (backing up existing), re-clone Packer, re-run PackerSync"),
            ArgSpec::new("skip_plugins", ArgKind::Flag).long("skip-plugins")
                .help("Skip the Packer plugin installation step (PackerSync). Packer itself will still be installed if missing or forced"),
        ];
        assert(arg_models(r@) =~= Self::spec_args());
        r
    }

    /// `clap` accepts the command.
    #[verifier::spinoff_prover]
    pub proof fn lemma_command_ok()
        ensures
            command_ok(Self::spec_command()),
    {
        reveal_strlit("force");
        reveal_strlit("skip_plugins");
        reveal_strlit("skip-plugins");
        reveal_strlit("help");
        reveal_strlit("version");
        let a = Self::spec_args();
        assert forall|i: int| 0 <= i < a.len() implies arg_ok(#[trigger] a[i]) by {
            assert(i == 0 || i == 1);
        }
        assert forall|i: int, j: int| 0 <= i < j < a.len() implies pair_ok(
            #[trigger] a[i],
            #[trigger] a[j],
        ) by {
            assert(i == 0 || i == 1);
            assert(j == 0 || j == 1);
        }
    }

    /// Whether the fields are the parsed values.
    pub open spec fn read_from(self, vals: Seq<ValuesModel>) -> bool {
        &&& self.force == flag_of(vals[0])
        &&& self.skip_plugins == flag_of(vals[1])
    }

    /// The fields from parsed values.
    pub fn from_values(vals: &Vec<ArgValues>) -> (r: NvimArgs)
        requires
            values_fit(Self::spec_args(), values_models(vals@)),
        ensures
            r.read_from(values_models(vals@)),
    {
        let ghost v = values_models(vals@);
        assert(value_fits(Self::spec_args()[0], v[0]));
        assert(value_fits(Self::spec_args()[1], v[1]));
        NvimArgs { force: read_flag(&vals[0]), skip_plugins: read_flag(&vals[1]) }
    }

    /// Parses a command line (the command's name first) as `clap` would for these
    /// arguments.
    pub fn try_parse_from(argv: &[&str]) -> (r: Result<NvimArgs, ArgsError>)
        ensures
            match clap_outcome(Self::spec_command(), argv_texts(argv@)) {
                Ok(p) => r matches Ok(a) && a.read_from(p.values),
                Err((m, answered)) => r matches Err(e) && args_error_message(e) == m && (e is Answered
                    <==> answered),
            },
    {
        let spec = leaf_command_spec("nvim", ABOUT, Self::args());
        proof {
            Self::lemma_command_ok();
        }
        match clap_parse(&spec, argv) {
            Ok(p) => Ok(Self::from_values(&p.values)),
            Err((m, answered)) => Err(
                if answered {
                    ArgsError::Answered(m)
                } else {
                    ArgsError::Rejected(m)
                },
            ),
        }
    }
}

/// Where the Packer plugin manager is cloned from.
pub const PACKER_REPO_URL: &'static str = "https://github.com/wbthomason/packer.nvim";

/// How far `devrs setup nvim` has come.
#[derive(Debug, Clone, Copy, PartialEq, Eq, Structural)]
pub enum NvimStage {
    /// Nothing done yet.
    Start,
    /// Waiting to learn whether `nvim` is installed.
    CheckNvim,
    /// Waiting to learn whether `git` is installed.
    CheckGit,
    /// Waiting for the configuration link.
    LinkConfig,
    /// Waiting to learn whether Packer is installed.
    InspectPacker,
    /// Waiting for Packer's installation.
    InstallPacker,
    /// Waiting for the plugins' synchronisation.
    SyncPlugins,
    /// Done, one way or the other.
    Finished,
}

/// What the host reported for the last action of `devrs setup nvim`.
#[derive(Debug)]
pub enum NvimEvent {
    /// The command begins.
    Started,
    /// The tool last asked about was looked for.
    ToolChecked(DepCheck),
    /// The configuration was linked, or the message of why not.
    ConfigLinked(Result<(), String>),
    /// Whether Packer's directory `dir` is present.
    PackerInspected { present: bool, dir: String },
    /// Packer was installed, or the message of why not.
    PackerInstalled(Result<(), String>),
    /// Whether the plugins' synchronisation succeeded.
    PluginsSynced(bool),
}

/// What `devrs setup nvim` asks the host to do next.
#[derive(Debug)]
pub enum NvimAction {
    /// Look for the named tool.
    CheckTool(String),
    /// Find the repository, make the configuration directory and link `init.lua`.
    LinkConfig,
    /// Look whether Packer's directory exists.
    InspectPacker,
    /// Remove the old directory first when told, then run `git` with these arguments.
    InstallPacker { remove_first: bool, clone_args: Vec<String> },
    /// Run `nvim` with these arguments.
    SyncPlugins(Vec<String>),
    /// Stop with this result.
    Finish(Result<(), String>),
}

/// An action as plain values.
pub enum NvimActionModel {
    CheckTool(Seq<char>),
    LinkConfig,
    InspectPacker,
    InstallPacker(bool, Seq<Seq<char>>),
    SyncPlugins(Seq<Seq<char>>),
    Finish(Result<(), Seq<char>>),
}

/// An action as plain values.
pub open spec fn action_model(a: NvimAction) -> NvimActionModel {
    match a {
        NvimAction::CheckTool(t) => NvimActionModel::CheckTool(t@),
        NvimAction::LinkConfig => NvimActionModel::LinkConfig,
        NvimAction::InspectPacker => NvimActionModel::InspectPacker,
        NvimAction::InstallPacker { remove_first, clone_args } => NvimActionModel::InstallPacker(
            remove_first,
            texts(clone_args@),
        ),
        NvimAction::SyncPlugins(a) => NvimActionModel::SyncPlugins(texts(a@)),
        NvimAction::Finish(r) => NvimActionModel::Finish(
            match r {
                Ok(_) => Ok(()),
                Err(m) => Err(m@),
            },
        ),
    }
}

/// One step of `devrs setup nvim`: the next stage, the lines to print and the action.
pub struct NvimStep {
    pub stage: NvimStage,
    pub lines: Vec<String>,
    pub action: NvimAction,
}

/// Whether `ev` answers what was asked at `stage`.
pub open spec fn event_fits(stage: NvimStage, ev: NvimEvent) -> bool {
    match ev {
        NvimEvent::Started => stage == NvimStage::Start,
        NvimEvent::ToolChecked(_) => stage == NvimStage::CheckNvim || stage == NvimStage::CheckGit,
        NvimEvent::ConfigLinked(_) => stage == NvimStage::LinkConfig,
        NvimEvent::PackerInspected { .. } => stage == NvimStage::InspectPacker,
        NvimEvent::PackerInstalled(_) => stage == NvimStage::InstallPacker,
        NvimEvent::PluginsSynced(_) => stage == NvimStage::SyncPlugins,
    }
}

/// The arguments of the `git` call that installs Packer into `dir`.
pub open spec fn clone_args(dir: Seq<char>) -> Seq<Seq<char>> {
    seq!["clone"@, "--depth"@, "1"@, PACKER_REPO_URL@, dir]
}

/// The arguments of the `nvim` call that synchronises the plugins.
pub open spec fn sync_args() -> Seq<Seq<char>> {
    seq!["--headless"@, "+PackerSync"@, "+qa"@]
}

/// The last line of every run that gets past Packer.
pub open spec fn finished_line() -> Seq<char> {
    "Neovim setup process finished."@
}

/// After Packer: synchronise the plugins, or skip that and finish.
pub open spec fn after_packer(skip: bool, lead: Seq<Seq<char>>) -> (
    NvimStage,
    Seq<Seq<char>>,
    NvimActionModel,
) {
    if skip {
        (
            NvimStage::Finished,
            lead + seq![
                "Skipped plugin installation via PackerSync."@,
                "Run Neovim and execute `:PackerSync` manually if needed."@,
                finished_line(),
            ],
            NvimActionModel::Finish(Ok(())),
        )
    } else {
        (
            NvimStage::SyncPlugins,
            lead + seq!["Running PackerSync to install/update Neovim plugins..."@],
            NvimActionModel::SyncPlugins(sync_args()),
        )
    }
}

/// What a tool check at `stage` leads to.
pub open spec fn after_tool(stage: NvimStage, c: DepCheck) -> (
    NvimStage,
    Seq<Seq<char>>,
    NvimActionModel,
) {
    let nvim = stage == NvimStage::CheckNvim;
    let asked = if nvim {
        "Checking for 'nvim' command... "@
    } else {
        "Checking for 'git' command... "@
    };
    match c {
        DepCheck::Found => if nvim {
            (NvimStage::CheckGit, seq![asked + "Found."@], NvimActionModel::CheckTool("git"@))
        } else {
            (NvimStage::LinkConfig, seq![asked + "Found."@], NvimActionModel::LinkConfig)
        },
        DepCheck::Missing => (
            NvimStage::Finished,
            seq![asked + "Missing."@],
            NvimActionModel::Finish(
                Err(
                    if nvim {
                        "'nvim' command not found in PATH. Please install Neovim first."@
                    } else {
                        "'git' command not found in PATH. Git is required to install Packer."@
                    },
                ),
            ),
        ),
        DepCheck::Failed(m) => (
            NvimStage::Finished,
            seq![asked],
            NvimActionModel::Finish(Err(m@)),
        ),
    }
}

/// The step of `devrs setup nvim` (with `--force` as `force`, `--skip-plugins` as
/// `skip`) from `stage` on the host's answer `ev`.
pub open spec fn nvim_next(force: bool, skip: bool, stage: NvimStage, ev: NvimEvent) -> (
    NvimStage,
    Seq<Seq<char>>,
    NvimActionModel,
) {
    match ev {
        NvimEvent::Started => (
            NvimStage::CheckNvim,
            Seq::empty(),
            NvimActionModel::CheckTool("nvim"@),
        ),
        NvimEvent::ToolChecked(c) => after_tool(stage, c),
        NvimEvent::ConfigLinked(r) => match r {
            Ok(_) => (
                NvimStage::InspectPacker,
                seq!["✅ Neovim config symlinked successfully."@],
                NvimActionModel::InspectPacker,
            ),
            Err(m) => (NvimStage::Finished, Seq::empty(), NvimActionModel::Finish(Err(m@))),
        },
        NvimEvent::PackerInspected { present, dir } => if !present || force {
            (
                NvimStage::InstallPacker,
                seq![
                    "Packer plugin manager not found or --force used. Installing Packer via git clone..."@,
                ],
                NvimActionModel::InstallPacker(force && present, clone_args(dir@)),
            )
        } else {
            after_packer(skip, seq!["Packer plugin manager already installed."@])
        },
        NvimEvent::PackerInstalled(r) => match r {
            Ok(_) => after_packer(skip, seq!["✅ Packer installed successfully."@]),
            Err(m) => (NvimStage::Finished, Seq::empty(), NvimActionModel::Finish(Err(m@))),
        },
        NvimEvent::PluginsSynced(ok) => (
            NvimStage::Finished,
            seq![
                if ok {
                    "✅ PackerSync completed successfully."@
                } else {
                    "⚠️ PackerSync failed or reported errors. Please run Neovim and execute `:PackerSync` manually to check plugin status."@
                },
                finished_line(),
            ],
            NvimActionModel::Finish(Ok(())),
        ),
    }
}

/// The error when cloning Packer into `dir` failed.
pub fn clone_failure(dir: &str) -> (r: String)
    ensures
        r@ == "Failed to clone Packer repository into "@ + dir@,
{
    let mut m = "Failed to clone Packer repository into ".to_string();
    m.append(dir);
    m
}

/// The step after Packer is in place.
fn after_packer_step(skip: bool, lead: &str) -> (r: NvimStep)
    ensures
        ({
            let n = after_packer(skip, seq![lead@]);
            &&& r.stage == n.0
            &&& texts(r.lines@) == n.1
            &&& action_model(r.action) == n.2
        }),
{
    let mut lines: Vec<String> = Vec::new();
    push_text(&mut lines, lead.to_string());
    if skip {
        push_text(&mut lines, "Skipped plugin installation via PackerSync.".to_string());
        push_text(&mut lines, "Run Neovim and execute `:PackerSync` manually if needed.".to_string());
        push_text(&mut lines, "Neovim setup process finished.".to_string());
        assert(texts(lines@) =~= after_packer(skip, seq![lead@]).1);
        NvimStep { stage: NvimStage::Finished, lines, action: NvimAction::Finish(Ok(())) }
    } else {
        push_text(&mut lines, "Running PackerSync to install/update Neovim plugins...".to_string());
        let a = vec!["--headless".to_string(), "+PackerSync".to_string(), "+qa".to_string()];
        assert(texts(lines@) =~= after_packer(skip, seq![lead@]).1);
        assert(texts(a@) =~= sync_args());
        NvimStep { stage: NvimStage::SyncPlugins, lines, action: NvimAction::SyncPlugins(a) }
    }
}

/// The step after a tool check.
fn after_tool_step(stage: NvimStage, c: &DepCheck) -> (r: NvimStep)
    requires
        stage == NvimStage::CheckNvim || stage == NvimStage::CheckGit,
    ensures
        ({
            let n = after_tool(stage, *c);
            &&& r.stage == n.0
            &&& texts(r.lines@) == n.1
            &&& action_model(r.action) == n.2
        }),
{
    let nvim = stage == NvimStage::CheckNvim;
    let mut line = if nvim {
        "Checking for 'nvim' command... ".to_string()
    } else {
        "Checking for 'git' command... ".to_string()
    };
    let mut lines: Vec<String> = Vec::new();
    match c {
        DepCheck::Found => {
            line.append("Found.");
            push_text(&mut lines, line);
            if nvim {
                NvimStep {
                    stage: NvimStage::CheckGit,
                    lines,
                    action: NvimAction::CheckTool("git".to_string()),
                }
            } else {
                NvimStep { stage: NvimStage::LinkConfig, lines, action: NvimAction::LinkConfig }
            }
        },
        DepCheck::Missing => {
            line.append("Missing.");
            push_text(&mut lines, line);
            let e = if nvim {
                "'nvim' command not found in PATH. Please install Neovim first.".to_string()
            } else {
                "'git' command not found in PATH. Git is required to install Packer.".to_string()
            };
            NvimStep { stage: NvimStage::Finished, lines, action: NvimAction::Finish(Err(e)) }
        },
        DepCheck::Failed(m) => {
            push_text(&mut lines, line);
            NvimStep {
                stage: NvimStage::Finished,
                lines,
                action: NvimAction::Finish(Err(m.clone())),
            }
        },
    }
}

impl NvimArgs {
    /// One step of `devrs setup nvim` from `stage` on the host's answer `ev`.
    pub fn step(&self, stage: NvimStage, ev: &NvimEvent) -> (r: NvimStep)
        requires
            event_fits(stage, *ev),
        ensures
            ({
                let n = nvim_next(self.force, self.skip_plugins, stage, *ev);
                &&& r.stage == n.0
                &&& texts(r.lines@) == n.1
                &&& action_model(r.action) == n.2
            }),
    {
        match ev {
            NvimEvent::Started => {
                let lines: Vec<String> = Vec::new();
                assert(texts(lines@) =~= Seq::<Seq<char>>::empty());
                NvimStep {
                    stage: NvimStage::CheckNvim,
                    lines,
                    action: NvimAction::CheckTool("nvim".to_string()),
                }
            },
            NvimEvent::ToolChecked(c) => after_tool_step(stage, c),
            NvimEvent::ConfigLinked(r) => match r {
                Ok(_) => {
                    let mut lines: Vec<String> = Vec::new();
                    push_text(&mut lines, "✅ Neovim config symlinked successfully.".to_string());
                    NvimStep { stage: NvimStage::InspectPacker, lines, action: NvimAction::InspectPacker }
                },
                Err(m) => {
                    let lines: Vec<String> = Vec::new();
                    assert(texts(lines@) =~= Seq::<Seq<char>>::empty());
                    NvimStep {
                        stage: NvimStage::Finished,
                        lines,
                        action: NvimAction::Finish(Err(m.clone())),
                    }
                },
            },
            NvimEvent::PackerInspected { present, dir } => {
                let e: bool = *present;
                if !e || self.force {
                    let mut lines: Vec<String> = Vec::new();
                    push_text(
                        &mut lines,
                        "Packer plugin manager not found or --force used. Installing Packer via git clone...".to_string(),
                    );
                    let a = vec![
                        "clone".to_string(),
                        "--depth".to_string(),
                        "1".to_string(),
                        PACKER_REPO_URL.to_string(),
                        dir.clone(),
                    ];
                    assert(texts(a@) =~= clone_args(dir@));
                    NvimStep {
                        stage: NvimStage::InstallPacker,
                        lines,
                        action: NvimAction::InstallPacker {
                            remove_first: self.force && e,
                            clone_args: a,
                        },
                    }
                } else {
                    after_packer_step(self.skip_plugins, "Packer plugin manager already installed.")
                }
            },
            NvimEvent::PackerInstalled(r) => match r {
                Ok(_) => after_packer_step(self.skip_plugins, "✅ Packer installed successfully."),
                Err(m) => {
                    let lines: Vec<String> = Vec::new();
                    assert(texts(lines@) =~= Seq::<Seq<char>>::empty());
                    NvimStep {
                        stage: NvimStage::Finished,
                        lines,
                        action: NvimAction::Finish(Err(m.clone())),
                    }
                },
            },
            NvimEvent::PluginsSynced(ok) => {
                let mut lines: Vec<String> = Vec::new();
                if *ok {
                    push_text(&mut lines, "✅ PackerSync completed successfully.".to_string());
                } else {
                    push_text(
                        &mut lines,
                        "⚠️ PackerSync failed or reported errors. Please run Neovim and execute `:PackerSync` manually to check plugin status.".to_string(),
                    );
                }
                push_text(&mut lines, "Neovim setup process finished.".to_string());
                NvimStep { stage: NvimStage::Finished, lines, action: NvimAction::Finish(Ok(())) }
            },
        }
    }
}

/// The order of the stages.
pub open spec fn stage_rank(s: NvimStage) -> int {
    match s {
        NvimStage::Start => 0,
        NvimStage::CheckNvim => 1,
        NvimStage::CheckGit => 2,
        NvimStage::LinkConfig => 3,
        NvimStage::InspectPacker => 4,
        NvimStage::InstallPacker => 5,
        NvimStage::SyncPlugins => 6,
        NvimStage::Finished => 7,
    }
}

/// Every step of `devrs setup nvim` moves to a later stage, so a run takes at most
/// seven steps; it stops exactly when it reaches `Finished`; with `--skip-plugins` it
/// never synchronises the plugins; with `--force` it always installs Packer anew.
pub proof fn lemma_nvim_steps(force: bool, skip: bool, stage: NvimStage, ev: NvimEvent)
    requires
        event_fits(stage, ev),
    ensures
        stage_rank(nvim_next(force, skip, stage, ev).0) > stage_rank(stage),
        (nvim_next(force, skip, stage, ev).0 == NvimStage::Finished) <==> (nvim_next(
            force,
            skip,
            stage,
            ev,
        ).2 is Finish),
        skip ==> !(nvim_next(force, skip, stage, ev).2 is SyncPlugins),
        force && ev is PackerInspected ==> nvim_next(force, skip, stage, ev).2 is InstallPacker,
{
}

} // verus!
