//! `devrs container run`: starting a container from an application image.

use crate::cli::{
    all_of, arg_model, arg_models, arg_ok, args_error_message, argv_texts, clap_outcome, clap_parse,
    command_ok, flag_of, leaf_command, leaf_command_spec, optional_of, pair_ok, read_all, read_flag,
    read_optional, str_opt_of, value_fits, values_fit, values_models, ArgKind, ArgModel, ArgSpec,
    ArgValues, ArgsError, CommandModel, ValuesModel,
};
use crate::text::texts;
use crate::commands::blueprint::create::{lemma_parse_key_val_split, pair_views, parse_key_val, spec_parse_key_val};
use crate::text::{lowercase, trim};
use crate::commands::container::build_image::{default_image_tag, dir_part, dir_part_string, spec_default_image_tag};
use vstd::prelude::*;

verus! {

/// The line describing the command in its help.
pub const ABOUT: &'static str = "# Container Run Arguments (`RunArgs`)";

/// Arguments of `devrs container run`.
#[derive(Debug)]
pub struct RunArgs {
    /// The image to run; derived from the directory name when absent.
    pub image: Option<String>,
    /// The container name; derived from the directory name when absent.
    pub name: Option<String>,
    /// Port mappings, `HOST:CONTAINER`, in order.
    pub ports: Vec<String>,
    /// Environment variables, `KEY=VALUE`, in order.
    pub env_vars: Vec<String>,
    /// Whether to run in the background.
    pub detach: bool,
    /// Whether to remove the container when it exits.
    pub rm: bool,
    /// The command to run instead of the image's default (after `--`).
    pub command: Vec<String>,
}

impl RunArgs {
    /// The arguments, in order.
    pub open spec fn spec_args() -> Seq<ArgModel> {
        seq![
            arg_model("image"@, ArgKind::Single).with_long("image"@).with_short('i')
                .with_help("Optional: Specifies the name and tag of the Docker image to use for creating the container (e.g., \"myapp:latest\"). If omitted, a default image name is generated based on the current directory name and an optional prefix from the DevRS configuration (format: `<prefix>-<dirname>:latest`)"@)
                .with_value_name("IMAGE"@),
            arg_model("name"@, ArgKind::Single).with_long("name"@)
                .with_help("Optional: Assigns a specific name to the newly created container. If omitted, a default name is generated (format: `devrs-app-<dirname>`). Container names must be unique across the Docker daemon"@)
                .with_value_name("NAME"@),
            arg_model("ports"@, ArgKind::Multiple).with_long("port"@).with_short('p')
                .with_help("Optional: Specifies port mappings between the host and the container. Format: `HOST_PORT:CONTAINER_PORT` (e.g., \"8080:80\", \"127.0.0.1:9000:9000\"). Can be specified multiple times to map multiple ports"@)
                .with_value_name("PORTS"@),
            arg_model("env_vars"@, ArgKind::Multiple).with_long("env"@).with_short('e')
                .with_help("Optional: Sets environment variables inside the container. Format: `KEY=VALUE` (e.g., \"DATABASE_URL=postgres://...\", \"API_KEY=123\"). Can be specified multiple times to set multiple variables"@)
                .with_value_name("ENV_VARS"@),
            arg_model("detach"@, ArgKind::Flag).with_long("detach"@).with_short('d')
                .with_help("Optional: Runs the container in the background (detached mode). If not set, the command will typically wait for the container's main process to finish (although this implementation might not currently stream foreground logs effectively)"@),
            arg_model("rm"@, ArgKind::Flag).with_long("rm"@)
                .with_help("Optional: Automatically removes the container filesystem when the container exits. This is useful for short-lived containers or tasks where persistent state is not needed. Cannot typically be used with `--detach`"@),
            arg_model("command"@, ArgKind::Multiple).with_last().with_many()
                .with_help("Optional: Specifies a command and its arguments to run inside the container, overriding the default `CMD` or `ENTRYPOINT` defined in the image's Dockerfile. All arguments following the options are captured as the command. Example: `devrs container run --image alpine:latest echo \"Hello from container\"`"@)
                .with_value_name("COMMAND"@),
        ]
    }

    /// The command.
    pub open spec fn spec_command() -> CommandModel {
        leaf_command("run"@, Some(ABOUT@), Self::spec_args())
    }

    /// The arguments, in order.
    pub fn args() -> (r: Vec<ArgSpec>)
        ensures
            arg_models(r@) == Self::spec_args(),
    {
        let r = vec![
            ArgSpec::new("image", ArgKind::Single).long("image").short('i')
                .help("Optional: Specifies the name and tag of the Docker image to use for creating the container (e.g., \"myapp:latest\"). If omitted, a default image name is generated based on the current directory name and an optional prefix from the DevRS configuration (format: `<prefix>-<dirname>:latest`)")
                .value_name("IMAGE"),
            ArgSpec::new("name", ArgKind::Single).long("name")
                .help("Optional: Assigns a specific name to the newly created container. If omitted, a default name is generated (format: `devrs-app-<dirname>`). Container names must be unique across the Docker daemon")
                .value_name("NAME"),
            ArgSpec::new("ports", ArgKind::Multiple).long("port").short('p')
                .help("Optional: Specifies port mappings between the host and the container. Format: `HOST_PORT:CONTAINER_PORT` (e.g., \"8080:80\", \"127.0.0.1:9000:9000\"). Can be specified multiple times to map multiple ports")
                .value_name("PORTS"),
            ArgSpec::new("env_vars", ArgKind::Multiple).long("env").short('e')
                .help("Optional: Sets environment variables inside the container. Format: `KEY=VALUE` (e.g., \"DATABASE_URL=postgres://...\", \"API_KEY=123\"). Can be specified multiple times to set multiple variables")
                .value_name("ENV_VARS"),
            ArgSpec::new("detach", ArgKind::Flag).long("detach").short('d')
                .help("Optional: Runs the container in the background (detached mode). If not set, the command will typically wait for the container's main process to finish (although this implementation might not currently stream foreground logs effectively)"),
            ArgSpec::new("rm", ArgKind::Flag).long("rm")
                .help("Optional: Automatically removes the container filesystem when the container exits. This is useful for short-lived containers or tasks where persistent state is not needed. Cannot typically be used with `--detach`"),
            ArgSpec::new("command", ArgKind::Multiple).last().many()
                .help("Optional: Specifies a command and its arguments to run inside the container, overriding the default `CMD` or `ENTRYPOINT` defined in the image's Dockerfile. All arguments following the options are captured as the command. Example: `devrs container run --image alpine:latest echo \"Hello from container\"`")
                .value_name("COMMAND"),
        ];
        assert(arg_models(r@) =~= Self::spec_args());
        r
    }

    /// `clap` accepts the command.
    #[verifier::spinoff_prover]
    pub proof fn lemma_command_ok()
        ensures
            command_ok(Self::spec_command()),
    {
        reveal_strlit("image");
        reveal_strlit("name");
        reveal_strlit("ports");
        reveal_strlit("port");
        reveal_strlit("env_vars");
        reveal_strlit("env");
        reveal_strlit("detach");
        reveal_strlit("rm");
        reveal_strlit("command");
        reveal_strlit("help");
        reveal_strlit("version");
        assert("image"@[0] != "ports"@[0]);
        assert("name"@[0] != "help"@[0]);
        assert("command"@[0] != "version"@[0]);
        assert("name"@[0] != "port"@[0]);
        assert("port"@[0] != "help"@[0]);
        let a = Self::spec_args();
        assert forall|i: int| 0 <= i < a.len() implies arg_ok(#[trigger] a[i]) by {
            assert(i == 0 || i == 1 || i == 2 || i == 3 || i == 4 || i == 5 || i == 6);
        }
        assert forall|i: int, j: int| 0 <= i < j < a.len() implies pair_ok(
            #[trigger] a[i],
            #[trigger] a[j],
        ) by {
            assert(i == 0 || i == 1 || i == 2 || i == 3 || i == 4 || i == 5 || i == 6);
            assert(j == 0 || j == 1 || j == 2 || j == 3 || j == 4 || j == 5 || j == 6);
        }
    }

    /// Whether the fields are the parsed values.
    pub open spec fn read_from(self, vals: Seq<ValuesModel>) -> bool {
        &&& str_opt_of(self.image) == optional_of(vals[0])
        &&& str_opt_of(self.name) == optional_of(vals[1])
        &&& texts(self.ports@) == all_of(vals[2])
        &&& texts(self.env_vars@) == all_of(vals[3])
        &&& self.detach == flag_of(vals[4])
        &&& self.rm == flag_of(vals[5])
        &&& texts(self.command@) == all_of(vals[6])
    }

    /// The fields from parsed values.
    pub fn from_values(vals: &Vec<ArgValues>) -> (r: RunArgs)
        requires
            values_fit(Self::spec_args(), values_models(vals@)),
        ensures
            r.read_from(values_models(vals@)),
    {
        let ghost v = values_models(vals@);
        assert(value_fits(Self::spec_args()[0], v[0]));
        assert(value_fits(Self::spec_args()[1], v[1]));
        assert(value_fits(Self::spec_args()[2], v[2]));
        assert(value_fits(Self::spec_args()[3], v[3]));
        assert(value_fits(Self::spec_args()[4], v[4]));
        assert(value_fits(Self::spec_args()[5], v[5]));
        assert(value_fits(Self::spec_args()[6], v[6]));
        RunArgs { image: read_optional(&vals[0]), name: read_optional(&vals[1]), ports: read_all(&vals[2]), env_vars: read_all(&vals[3]), detach: read_flag(&vals[4]), rm: read_flag(&vals[5]), command: read_all(&vals[6]) }
    }

    /// Parses a command line (the command's name first) as `clap` would for these
    /// arguments.
    pub fn try_parse_from(argv: &[&str]) -> (r: Result<RunArgs, ArgsError>)
        ensures
            match clap_outcome(Self::spec_command(), argv_texts(argv@)) {
                Ok(p) => r matches Ok(a) && a.read_from(p.values),
                Err((m, answered)) => r matches Err(e) && args_error_message(e) == m && (e is Answered
                    <==> answered),
            },
    {
        let spec = leaf_command_spec("run", ABOUT, Self::args());
        proof {
            Self::lemma_command_ok();
        }
        match clap_parse(&spec, argv) {
            Ok(p) => Ok(Self::from_values(&p.values)),
            Err((m, answered)) => Err(
                if answered {
                    ArgsError::Answered(m)
                } else {
                    ArgsError::Rejected(m)
                },
            ),
        }
    }
}

/// The environment variables of `KEY=VALUE` values, keys and values trimmed, in order;
/// values without `=` are left out (they are only warned about).
pub open spec fn env_pairs(vs: Seq<Seq<char>>) -> Seq<(Seq<char>, Seq<char>)>
    decreases vs.len(),
{
    if vs.len() == 0 {
        Seq::empty()
    } else {
        env_pairs(vs.drop_last()) + match spec_parse_key_val(vs.last()) {
            Ok(kv) => seq![kv],
            Err(_) => Seq::empty(),
        }
    }
}

/// What `devrs container run` starts: the image, the container's name, its environment
/// (later keys win when the map is built), and the command replacing the image's own.
pub struct RunPlan {
    pub image: String,
    pub name: String,
    pub env: Vec<(String, String)>,
    pub command: Option<Vec<String>>,
}

/// The container name used when none is given: `devrs-app-DIR`, DIR being the current
/// directory's name in lowercase (`unknown` when it has none).
pub open spec fn default_container_name(dir_name: Option<Seq<char>>) -> Seq<char> {
    "devrs-app-"@ + dir_part(dir_name, "unknown"@)
}

/// The environment variables of the `--env` values.
pub fn env_vars_of(vs: &Vec<String>) -> (r: Vec<(String, String)>)
    ensures
        pair_views(r@) == env_pairs(texts(vs@)),
{
    let mut out: Vec<(String, String)> = Vec::new();
    let mut i: usize = 0;
    assert(texts(vs@).take(0) =~= Seq::<Seq<char>>::empty());
    assert(pair_views(out@) =~= Seq::<(Seq<char>, Seq<char>)>::empty());
    while i < vs.len()
        invariant
            i <= vs.len(),
            pair_views(out@) == env_pairs(texts(vs@).take(i as int)),
        decreases vs.len() - i,
    {
        assert(texts(vs@).take(i + 1).drop_last() == texts(vs@).take(i as int));
        assert(texts(vs@).take(i + 1).last() == vs@[i as int]@);
        let ghost before = out@;
        match parse_key_val(vs[i].as_str()) {
            Ok(kv) => {
                out.push(kv);
                assert(pair_views(out@) =~= pair_views(before) + seq![(kv.0@, kv.1@)]);
            },
            Err(_) => {
                assert(pair_views(out@) =~= pair_views(before) + Seq::empty());
            },
        }
        i = i + 1;
    }
    assert(texts(vs@).take(vs@.len() as int) == texts(vs@));
    out
}

/// What to run for `args`, given the current directory's name and the configured image
/// prefix: the image given or the default one, the name given or the default one, the
/// valid `--env` values, and the command after `--` if any.
pub fn plan_run(args: &RunArgs, dir_name: &Option<String>, prefix: &Option<String>) -> (r: RunPlan)
    ensures
        r.image@ == match str_opt_of(args.image) {
            Some(i) => i,
            None => spec_default_image_tag(str_opt_of(*dir_name), str_opt_of(*prefix)),
        },
        r.name@ == match str_opt_of(args.name) {
            Some(n) => n,
            None => default_container_name(str_opt_of(*dir_name)),
        },
        pair_views(r.env@) == env_pairs(texts(args.env_vars@)),
        match r.command {
            None => args.command@.len() == 0,
            Some(c) => args.command@.len() > 0 && texts(c@) == texts(args.command@),
        },
{
    let image = match &args.image {
        Some(i) => i.clone(),
        None => default_image_tag(dir_name, prefix),
    };
    let name = match &args.name {
        Some(n) => n.clone(),
        None => {
            let mut n = "devrs-app-".to_string();
            n.append(dir_part_string(dir_name, "unknown").as_str());
            n
        },
    };
    let env = env_vars_of(&args.env_vars);
    let command = if args.command.len() == 0 {
        None
    } else {
        let mut c: Vec<String> = Vec::new();
        let mut i: usize = 0;
        while i < args.command.len()
            invariant
                i <= args.command.len(),
                texts(c@) == texts(args.command@).take(i as int),
            decreases args.command.len() - i,
        {
            c.push(args.command[i].clone());
            assert(texts(args.command@).take(i + 1) == texts(args.command@).take(i as int).push(
                args.command@[i as int]@,
            ));
            i = i + 1;
        }
        assert(texts(args.command@).take(args.command@.len() as int) == texts(args.command@));
        Some(c)
    };
    RunPlan { image, name, env, command }
}

/// The line shown once the container has started (detached) or finished.
pub fn run_done_line(name: &str, detach: bool) -> (r: String)
    ensures
        r@ == "✅ Container '"@ + name@ + (if detach {
            "' started in detached mode."@
        } else {
            "' finished."@
        }),
{
    let mut l = "✅ Container '".to_string();
    l.append(name);
    if detach {
        l.append("' started in detached mode.");
    } else {
        l.append("' finished.");
    }
    l
}

/// The warning before running from an image that is not present locally (`exists`
/// false): Docker will try to pull it. `None` when the image is present.
pub fn missing_image_warning(image: &str, exists: bool) -> (r: Option<String>)
    ensures
        r is None <==> exists,
        r matches Some(w) ==> w@ == "Image '"@ + image@ + "' not found locally. Docker will try to pull it."@,
{
    if exists {
        None
    } else {
        let mut w = "Image '".to_string();
        w.append(image);
        w.append("' not found locally. Docker will try to pull it.");
        Some(w)
    }
}

/// The default container name is `devrs-app-` and the current directory's name in
/// lowercase, or `devrs-app-unknown` when the directory has no name.
pub proof fn lemma_default_container_name(dir_name: Option<Seq<char>>)
    ensures
        dir_name matches Some(d) ==> default_container_name(dir_name) == "devrs-app-"@ + lowercase(d),
        dir_name is None ==> default_container_name(dir_name) == "devrs-app-unknown"@,
{
    if dir_name is None {
        reveal_strlit("devrs-app-");
        reveal_strlit("unknown");
        reveal_strlit("devrs-app-unknown");
        assert("devrs-app-"@ + "unknown"@ =~= "devrs-app-unknown"@);
    }
}

/// Each `--env` value adds one variable when it holds `=`: the text before the first `=`
/// as the key and the text after it as the value, both trimmed; a value without `=` adds
/// nothing. Earlier values keep their place.
pub proof fn lemma_env_pairs_step(vs: Seq<Seq<char>>, v: Seq<char>, k: int)
    requires
        0 <= k <= v.len(),
        forall|j: int| 0 <= j < k ==> v[j] != '=',
        k < v.len() ==> v[k] == '=',
    ensures
        k < v.len() ==> env_pairs(vs.push(v)) == env_pairs(vs).push((trim(v.take(k)), trim(v.skip(k + 1)))),
        k == v.len() ==> env_pairs(vs.push(v)) == env_pairs(vs),
{
    lemma_parse_key_val_split(v, k);
    assert(vs.push(v).drop_last() == vs);
    assert(vs.push(v).last() == v);
    if k < v.len() {
        assert(env_pairs(vs) + seq![(trim(v.take(k)), trim(v.skip(k + 1)))] =~= env_pairs(vs).push(
            (trim(v.take(k)), trim(v.skip(k + 1))),
        ));
    } else {
        assert(env_pairs(vs) + Seq::<(Seq<char>, Seq<char>)>::empty() =~= env_pairs(vs));
    }
}

} // verus!
