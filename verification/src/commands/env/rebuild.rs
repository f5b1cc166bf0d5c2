//! `devrs env rebuild`: rebuilding the core environment image and container.

use crate::cli::{long_ok, 
    arg_model, arg_models, arg_ok, args_error_message, argv_texts, clap_outcome, clap_parse,
    command_ok, flag_of, leaf_command, leaf_command_spec, optional_of, pair_ok, read_flag,
    read_optional, str_opt_of, value_fits, values_fit, values_models, ArgKind, ArgModel, ArgSpec,
    ArgValues, ArgsError, CommandModel, ValuesModel,
};
use crate::text::texts;
use crate::commands::env::{build_failure_context, missing_dockerfile_error};
use crate::text::push_text;
use vstd::prelude::*;

verus! {

/// The line describing the command in its help.
pub const ABOUT: &'static str = "Rebuild the core DevRS environment image and recreate the container";

/// Arguments of `devrs env rebuild`.
#[derive(Debug)]
pub struct RebuildArgs {
    /// Whether to build without the layer cache.
    pub no_cache: bool,
    /// The container; the configured one when absent.
    pub name: Option<String>,
    /// Whether to build the plugin-enabled image.
    pub with_plugins: bool,
}

impl RebuildArgs {
    /// The arguments, in order.
    pub open spec fn spec_args() -> Seq<ArgModel> {
        seq![
            arg_model("no_cache"@, ArgKind::Flag).with_long("no-cache"@)
                .with_help("Optional: If set, instructs Docker to build the image without using its layer cache, forcing all steps in the Dockerfile to re-run"@),
            arg_model("name"@, ArgKind::Single).with_long("name"@)
                .with_help("Optional: Specifies the exact name of the core environment container to stop/remove before rebuilding the image. If omitted, the default name derived from configuration (`<core_env.image_name>-instance`) is used. Note that the rebuilt image tag is always determined by the configuration, regardless of this argument"@)
                .with_value_name("NAME"@),
            arg_model("with_plugins"@, ArgKind::Flag).with_long("with-plugins"@)
                .with_help("Optional: Experimental flag indicating an attempt should be made to update Neovim plugins during the image rebuild process. **WARNING:** This functionality is not fully implemented and depends heavily on specific stages or logic being present within the core environment `Dockerfile` (e.g., a stage that checks out configuration and runs `PackerSync`). It is not guaranteed to work with the default Dockerfile"@),
        ]
    }

    /// The command.
    pub open spec fn spec_command() -> CommandModel {
        leaf_command("rebuild"@, Some(ABOUT@), Self::spec_args())
    }

    /// The arguments, in order.
    pub fn args() -> (r: Vec<ArgSpec>)
        ensures
            arg_models(r@) == Self::spec_args(),
    {
        let r = vec![
            ArgSpec::new("no_cache", ArgKind::Flag).long("no-cache")
                .help("Optional: If set, instructs Docker to build the image without using its layer cache, forcing all steps in the Dockerfile to re-run"),
            ArgSpec::new("name", ArgKind::Single).long("name")
                .help("Optional: Specifies the exact name of the core environment container to stop/remove before rebuilding the image. If omitted, the default name derived from configuration (`<core_env.image_name>-instance`) is used. Note that the rebuilt image tag is always determined by the configuration, regardless of this argument")
                .value_name("NAME"),
            ArgSpec::new("with_plugins", ArgKind::Flag).long("with-plugins")
                .help("Optional: Experimental flag indicating an attempt should be made to update Neovim plugins during the image rebuild process. **WARNING:** This functionality is not fully implemented and depends heavily on specific stages or logic being present within the core environment `Dockerfile` (e.g., a stage that checks out configuration and runs `PackerSync`). It is not guaranteed to work with the default Dockerfile"),
        ];
        assert(arg_models(r@) =~= Self::spec_args());
        r
    }

    /// `clap` accepts the command.
    #[verifier::spinoff_prover]
    pub proof fn lemma_command_ok()
        ensures
            command_ok(Self::spec_command()),
    {
        reveal_strlit("no_cache");
        reveal_strlit("no-cache");
        reveal_strlit("name");
        reveal_strlit("with_plugins");
        reveal_strlit("with-plugins");
        reveal_strlit("help");
        reveal_strlit("version");
        assert("name"@[0] != "help"@[0]);
        let a = Self::spec_args();
        assert(!a[0].last && !a[0].many && a[0].id.len() > 0);
        assert(a[0].long is Some ==> long_ok(a[0].long->0));
        assert(arg_ok(a[0]));
        assert(!a[1].last && !a[1].many && a[1].id.len() > 0);
        assert(a[1].long is Some ==> long_ok(a[1].long->0));
        assert(arg_ok(a[1]));
        assert(!a[2].last && !a[2].many && a[2].id.len() > 0);
        assert(a[2].long is Some ==> long_ok(a[2].long->0));
        assert(arg_ok(a[2]));
        assert forall|i: int| 0 <= i < a.len() implies arg_ok(#[trigger] a[i]) by {
            assert(i == 0 || i == 1 || i == 2);
        }
        assert forall|i: int, j: int| 0 <= i < j < a.len() implies pair_ok(
            #[trigger] a[i],
            #[trigger] a[j],
        ) by {
            assert(i == 0 || i == 1 || i == 2);
            assert(j == 0 || j == 1 || j == 2);
        }
    }

    /// Whether the fields are the parsed values.
    pub open spec fn read_from(self, vals: Seq<ValuesModel>) -> bool {
        &&& self.no_cache == flag_of(vals[0])
        &&& str_opt_of(self.name) == optional_of(vals[1])
        &&& self.with_plugins == flag_of(vals[2])
    }

    /// The fields from parsed values.
    pub fn from_values(vals: &Vec<ArgValues>) -> (r: RebuildArgs)
        requires
            values_fit(Self::spec_args(), values_models(vals@)),
        ensures
            r.read_from(values_models(vals@)),
    {
        let ghost v = values_models(vals@);
        assert(value_fits(Self::spec_args()[0], v[0]));
        assert(value_fits(Self::spec_args()[1], v[1]));
        assert(value_fits(Self::spec_args()[2], v[2]));
        RebuildArgs { no_cache: read_flag(&vals[0]), name: read_optional(&vals[1]), with_plugins: read_flag(&vals[2]) }
    }

    /// Parses a command line (the command's name first) as `clap` would for these
    /// arguments.
    pub fn try_parse_from(argv: &[&str]) -> (r: Result<RebuildArgs, ArgsError>)
        ensures
            match clap_outcome(Self::spec_command(), argv_texts(argv@)) {
                Ok(p) => r matches Ok(a) && a.read_from(p.values),
                Err((m, answered)) => r matches Err(e) && args_error_message(e) == m && (e is Answered
                    <==> answered),
            },
    {
        let spec = leaf_command_spec("rebuild", ABOUT, Self::args());
        proof {
            Self::lemma_command_ok();
        }
        match clap_parse(&spec, argv) {
            Ok(p) => Ok(Self::from_values(&p.values)),
            Err((m, answered)) => Err(
                if answered {
                    ArgsError::Answered(m)
                } else {
                    ArgsError::Rejected(m)
                },
            ),
        }
    }
}

/// The lines shown before the old container is stopped: a note when plugins were asked
/// for, the target, and the stop step.
pub open spec fn spec_rebuild_intro(with_plugins: bool, container: Seq<char>) -> Seq<Seq<char>> {
    (if with_plugins {
        seq!["Proceeding with standard rebuild; plugin update logic is not fully implemented."@]
    } else {
        Seq::empty()
    }) + seq![
        "Rebuilding core environment '"@ + container + "'..."@,
        "Attempting to stop existing container '"@ + container + "' (if running)..."@,
    ]
}

/// The lines shown before the old container is stopped.
pub fn rebuild_intro(with_plugins: bool, container: &str) -> (r: Vec<String>)
    ensures
        texts(r@) == spec_rebuild_intro(with_plugins, container@),
{
    let mut lines: Vec<String> = Vec::new();
    if with_plugins {
        lines.push(
            "Proceeding with standard rebuild; plugin update logic is not fully implemented.".to_string(),
        );
    }
    let mut a = "Rebuilding core environment '".to_string();
    a.append(container);
    a.append("'...");
    lines.push(a);
    let mut b = "Attempting to stop existing container '".to_string();
    b.append(container);
    b.append("' (if running)...");
    lines.push(b);
    assert(texts(lines@) =~= spec_rebuild_intro(with_plugins, container@));
    lines
}

/// The line shown before the old container is removed.
pub fn removing_line(container: &str) -> (r: String)
    ensures
        r@ == "Attempting to remove existing container '"@ + container@ + "' (if exists)..."@,
{
    let mut l = "Attempting to remove existing container '".to_string();
    l.append(container);
    l.append("' (if exists)...");
    l
}

/// The Dockerfile a rebuild uses, relative to the current directory.
pub const REBUILD_DOCKERFILE: &'static str = "Dockerfile";

/// The lines shown after a successful rebuild.
pub fn rebuild_done_lines(container: &str) -> (r: Vec<String>)
    ensures
        texts(r@) == seq![
            "✅ Environment rebuild process completed for '"@ + container@ + "'."@,
            "Run 'devrs env shell' to start using the rebuilt environment."@,
        ],
{
    let mut a = "✅ Environment rebuild process completed for '".to_string();
    a.append(container);
    a.append("'.");
    let lines = vec![a, "Run 'devrs env shell' to start using the rebuilt environment.".to_string()];
    assert(texts(lines@) =~= seq![
        "✅ Environment rebuild process completed for '"@ + container@ + "'."@,
        "Run 'devrs env shell' to start using the rebuilt environment."@,
    ]);
    lines
}

/// How far `devrs env rebuild` has come.
#[derive(Debug, Clone, Copy, PartialEq, Eq, Structural)]
pub enum RebuildStage {
    /// Nothing done yet.
    Start,
    /// Waiting for the old container to be stopped.
    Stopping,
    /// Waiting for the old container to be removed.
    Removing,
    /// Waiting to learn whether the Dockerfile is there.
    CheckingDockerfile,
    /// Waiting for the image build.
    Building,
    /// Done, one way or the other.
    Finished,
}

/// What the host reported for the last action of `devrs env rebuild`. How the stop and
/// the removal went does not matter: a missing or stuck container is no reason to stop.
#[derive(Debug)]
pub enum RebuildEvent {
    /// The command begins.
    Started,
    /// The stop was tried.
    Stopped,
    /// The removal was tried.
    Removed,
    /// Whether the Dockerfile is a file.
    DockerfileChecked(bool),
    /// Whether the image was built.
    Built(bool),
}

/// What `devrs env rebuild` asks the host to do next.
#[derive(Debug)]
pub enum RebuildAction {
    /// Stop the container, waiting at most this many seconds.
    StopContainer { name: String, timeout: u32 },
    /// Remove the container (forcibly when told).
    RemoveContainer { name: String, force: bool },
    /// Look whether the Dockerfile at this path is a file.
    CheckDockerfile(String),
    /// Build the image from the Dockerfile, without the cache when told.
    BuildImage { image: String, dockerfile: String, no_cache: bool },
    /// Stop with this result.
    Finish(Result<(), String>),
}

/// An action as plain values.
pub enum RebuildActionModel {
    StopContainer(Seq<char>, u32),
    RemoveContainer(Seq<char>, bool),
    CheckDockerfile(Seq<char>),
    BuildImage(Seq<char>, Seq<char>, bool),
    Finish(Result<(), Seq<char>>),
}

/// An action as plain values.
pub open spec fn rebuild_action_model(a: RebuildAction) -> RebuildActionModel {
    match a {
        RebuildAction::StopContainer { name, timeout } => RebuildActionModel::StopContainer(name@, timeout),
        RebuildAction::RemoveContainer { name, force } => RebuildActionModel::RemoveContainer(name@, force),
        RebuildAction::CheckDockerfile(p) => RebuildActionModel::CheckDockerfile(p@),
        RebuildAction::BuildImage { image, dockerfile, no_cache } => RebuildActionModel::BuildImage(
            image@,
            dockerfile@,
            no_cache,
        ),
        RebuildAction::Finish(r) => RebuildActionModel::Finish(
            match r {
                Ok(_) => Ok(()),
                Err(m) => Err(m@),
            },
        ),
    }
}

/// One step of `devrs env rebuild`: the next stage, the lines to print and the action.
pub struct RebuildStep {
    pub stage: RebuildStage,
    pub lines: Vec<String>,
    pub action: RebuildAction,
}

/// Whether `ev` answers what was asked at `stage`.
pub open spec fn rebuild_event_fits(stage: RebuildStage, ev: RebuildEvent) -> bool {
    match ev {
        RebuildEvent::Started => stage == RebuildStage::Start,
        RebuildEvent::Stopped => stage == RebuildStage::Stopping,
        RebuildEvent::Removed => stage == RebuildStage::Removing,
        RebuildEvent::DockerfileChecked(_) => stage == RebuildStage::CheckingDockerfile,
        RebuildEvent::Built(_) => stage == RebuildStage::Building,
    }
}

/// The step of `devrs env rebuild` (with `--with-plugins` as `with_plugins` and
/// `--no-cache` as `no_cache`) for the container `container` and the image `image`
/// (`NAME:TAG`), from `stage` on the host's answer `ev`: stop the container (5 s), remove
/// it forcibly, whatever came of either; refuse a missing `Dockerfile`; build; report.
pub open spec fn rebuild_next(
    with_plugins: bool,
    no_cache: bool,
    container: Seq<char>,
    image: Seq<char>,
    ev: RebuildEvent,
) -> (RebuildStage, Seq<Seq<char>>, RebuildActionModel) {
    match ev {
        RebuildEvent::Started => (
            RebuildStage::Stopping,
            spec_rebuild_intro(with_plugins, container),
            RebuildActionModel::StopContainer(container, 5),
        ),
        RebuildEvent::Stopped => (
            RebuildStage::Removing,
            seq!["Attempting to remove existing container '"@ + container + "' (if exists)..."@],
            RebuildActionModel::RemoveContainer(container, true),
        ),
        RebuildEvent::Removed => (
            RebuildStage::CheckingDockerfile,
            seq!["Building the core environment image..."@],
            RebuildActionModel::CheckDockerfile(REBUILD_DOCKERFILE@),
        ),
        RebuildEvent::DockerfileChecked(present) => if present {
            (
                RebuildStage::Building,
                Seq::empty(),
                RebuildActionModel::BuildImage(image, REBUILD_DOCKERFILE@, no_cache),
            )
        } else {
            (
                RebuildStage::Finished,
                Seq::empty(),
                RebuildActionModel::Finish(
                    Err(
                        "Core environment Dockerfile not found at expected path: '"@
                            + REBUILD_DOCKERFILE@
                            + "'. Please run this command from the root of the devrs repository."@,
                    ),
                ),
            )
        },
        RebuildEvent::Built(ok) => if ok {
            (
                RebuildStage::Finished,
                seq![
                    "✅ Environment rebuild process completed for '"@ + container + "'."@,
                    "Run 'devrs env shell' to start using the rebuilt environment."@,
                ],
                RebuildActionModel::Finish(Ok(())),
            )
        } else {
            (
                RebuildStage::Finished,
                Seq::empty(),
                RebuildActionModel::Finish(
                    Err("Failed to build core environment image '"@ + image + "'"@),
                ),
            )
        },
    }
}

impl RebuildArgs {
    /// One step of `devrs env rebuild` for the container `container` and the image `image`
    /// (`NAME:TAG`), from `stage` on the host's answer `ev`.
    pub fn step(&self, container: &str, image: &str, stage: RebuildStage, ev: &RebuildEvent) -> (r:
        RebuildStep)
        requires
            rebuild_event_fits(stage, *ev),
        ensures
            ({
                let n = rebuild_next(self.with_plugins, self.no_cache, container@, image@, *ev);
                &&& r.stage == n.0
                &&& texts(r.lines@) == n.1
                &&& rebuild_action_model(r.action) == n.2
            }),
    {
        match ev {
            RebuildEvent::Started => RebuildStep {
                stage: RebuildStage::Stopping,
                lines: rebuild_intro(self.with_plugins, container),
                action: RebuildAction::StopContainer { name: container.to_string(), timeout: 5 },
            },
            RebuildEvent::Stopped => {
                let mut lines: Vec<String> = Vec::new();
                push_text(&mut lines, removing_line(container));
                RebuildStep {
                    stage: RebuildStage::Removing,
                    lines,
                    action: RebuildAction::RemoveContainer { name: container.to_string(), force: true },
                }
            },
            RebuildEvent::Removed => {
                let mut lines: Vec<String> = Vec::new();
                push_text(&mut lines, "Building the core environment image...".to_string());
                RebuildStep {
                    stage: RebuildStage::CheckingDockerfile,
                    lines,
                    action: RebuildAction::CheckDockerfile(REBUILD_DOCKERFILE.to_string()),
                }
            },
            RebuildEvent::DockerfileChecked(present) => {
                let lines: Vec<String> = Vec::new();
                assert(texts(lines@) =~= Seq::<Seq<char>>::empty());
                if *present {
                    RebuildStep {
                        stage: RebuildStage::Building,
                        lines,
                        action: RebuildAction::BuildImage {
                            image: image.to_string(),
                            dockerfile: REBUILD_DOCKERFILE.to_string(),
                            no_cache: self.no_cache,
                        },
                    }
                } else {
                    RebuildStep {
                        stage: RebuildStage::Finished,
                        lines,
                        action: RebuildAction::Finish(Err(missing_dockerfile_error(REBUILD_DOCKERFILE))),
                    }
                }
            },
            RebuildEvent::Built(ok) => {
                if *ok {
                    RebuildStep {
                        stage: RebuildStage::Finished,
                        lines: rebuild_done_lines(container),
                        action: RebuildAction::Finish(Ok(())),
                    }
                } else {
                    let lines: Vec<String> = Vec::new();
                    assert(texts(lines@) =~= Seq::<Seq<char>>::empty());
                    RebuildStep {
                        stage: RebuildStage::Finished,
                        lines,
                        action: RebuildAction::Finish(Err(build_failure_context(image))),
                    }
                }
            },
        }
    }
}

} // verus!
