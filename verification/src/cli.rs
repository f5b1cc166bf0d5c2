//! Command-line parsing. Each command describes its arguments as data ([`ArgSpec`]);
//! `clap` parses a command line against that description; each command then reads its
//! fields back out of the parsed values.

use crate::commands::blueprint::create::{pair_views, parse_key_val, spec_parse_key_val};
use crate::text::texts;
use clap::ArgAction;
use vstd::prelude::*;

verus! {

#[verifier::external_type_specification]
#[verifier::external_body]
pub struct ExClapArg(clap::Arg);

#[verifier::external_type_specification]
#[verifier::external_body]
pub struct ExClapArgMatches(clap::ArgMatches);

#[verifier::external_type_specification]
#[verifier::external_body]
pub struct ExClapCommand(clap::Command);

/// How an argument takes values.
#[derive(Clone, Copy, PartialEq, Eq, Structural)]
pub enum ArgKind {
    /// A switch without a value (`bool` fields).
    Flag,
    /// One value (`String` and `Option<String>` fields).
    Single,
    /// Any number of values, collected in order (`Vec` fields).
    Multiple,
    /// One `u32`, read by `clap`'s own parser for `u32` fields.
    Number,
    /// Any number of `KEY=VALUE` pairs, collected in order, each read by
    /// `parse_key_val` as `clap`'s value parser.
    KeyValue,
}

/// One argument of a command.
pub struct ArgSpec {
    /// The argument's identifier: the field's name.
    pub id: &'static str,
    /// `--long` name; positional when neither this nor `short` is set.
    pub long: Option<&'static str>,
    /// `-s` name.
    pub short: Option<char>,
    pub kind: ArgKind,
    /// Whether parsing fails without it.
    pub required: bool,
    /// The value it takes when absent.
    pub default_value: Option<&'static str>,
    /// Whether it only takes the values after `--`.
    pub last: bool,
    /// Whether one occurrence takes all following values (`num_args(1..)`).
    pub many: bool,
    /// The line shown for it in the help.
    pub help: Option<&'static str>,
    /// The placeholder shown for its values in usage and help (`<TIME>`).
    pub value_name: Option<&'static str>,
}

/// The value of an [`ArgSpec`].
pub struct ArgModel {
    pub id: Seq<char>,
    pub long: Option<Seq<char>>,
    pub short: Option<char>,
    pub kind: ArgKind,
    pub required: bool,
    pub default_value: Option<Seq<char>>,
    pub last: bool,
    pub many: bool,
    pub help: Option<Seq<char>>,
    pub value_name: Option<Seq<char>>,
}

/// The text of an optional string slice.
pub open spec fn str_opt(o: Option<&str>) -> Option<Seq<char>> {
    match o {
        Some(s) => Some(s@),
        None => None,
    }
}

impl View for ArgSpec {
    type V = ArgModel;

    open spec fn view(&self) -> ArgModel {
        ArgModel {
            id: self.id@,
            long: str_opt(self.long),
            short: self.short,
            kind: self.kind,
            required: self.required,
            default_value: str_opt(self.default_value),
            last: self.last,
            many: self.many,
            help: str_opt(self.help),
            value_name: str_opt(self.value_name),
        }
    }
}

/// The values of a list of argument descriptions.
pub open spec fn arg_models(v: Seq<ArgSpec>) -> Seq<ArgModel> {
    v.map_values(|a: ArgSpec| a@)
}

/// A subcommand: its name and its arguments.
pub struct LeafSpec {
    pub name: &'static str,
    /// The line describing it in the help.
    pub about: Option<&'static str>,
    pub args: Vec<ArgSpec>,
}

/// The value of a [`LeafSpec`].
pub struct LeafModel {
    pub name: Seq<char>,
    pub about: Option<Seq<char>>,
    pub args: Seq<ArgModel>,
}

impl View for LeafSpec {
    type V = LeafModel;

    open spec fn view(&self) -> LeafModel {
        LeafModel { name: self.name@, about: str_opt(self.about), args: arg_models(self.args@) }
    }
}

/// A command: its arguments and its subcommands.
pub struct CommandSpec {
    pub name: &'static str,
    /// The line describing it in the help.
    pub about: Option<&'static str>,
    pub args: Vec<ArgSpec>,
    pub subcommands: Vec<LeafSpec>,
    /// Whether a subcommand must be given (parsing without one fails and shows help).
    pub subcommand_required: bool,
}

/// The value of a [`CommandSpec`].
pub struct CommandModel {
    pub name: Seq<char>,
    pub about: Option<Seq<char>>,
    pub args: Seq<ArgModel>,
    pub subcommands: Seq<LeafModel>,
    pub subcommand_required: bool,
}

impl View for CommandSpec {
    type V = CommandModel;

    open spec fn view(&self) -> CommandModel {
        CommandModel {
            name: self.name@,
            about: str_opt(self.about),
            args: arg_models(self.args@),
            subcommands: self.subcommands@.map_values(|l: LeafSpec| l@),
            subcommand_required: self.subcommand_required,
        }
    }
}

/// The values parsed for one argument.
pub enum ArgValues {
    /// Whether a switch was given.
    Flag(bool),
    /// The values given (or the default), in order.
    Values(Vec<String>),
    /// The numbers given (or the default).
    Numbers(Vec<u32>),
    /// The pairs given, in order.
    Pairs(Vec<(String, String)>),
}

/// The value of an [`ArgValues`].
pub enum ValuesModel {
    Flag(bool),
    Values(Seq<Seq<char>>),
    Numbers(Seq<u32>),
    Pairs(Seq<(Seq<char>, Seq<char>)>),
}


impl View for ArgValues {
    type V = ValuesModel;

    open spec fn view(&self) -> ValuesModel {
        match self {
            ArgValues::Flag(b) => ValuesModel::Flag(*b),
            ArgValues::Values(v) => ValuesModel::Values(texts(v@)),
            ArgValues::Numbers(v) => ValuesModel::Numbers(v@),
            ArgValues::Pairs(v) => ValuesModel::Pairs(pair_views(v@)),
        }
    }
}

/// The values of a list of parsed arguments.
pub open spec fn values_models(v: Seq<ArgValues>) -> Seq<ValuesModel> {
    v.map_values(|a: ArgValues| a@)
}

/// The values of an optional list of parsed arguments.
pub open spec fn opt_values_models(o: Option<Vec<ArgValues>>) -> Option<Seq<ValuesModel>> {
    match o {
        Some(v) => Some(values_models(v@)),
        None => None,
    }
}

/// A parsed command line: the values of the command's arguments, in the order they are
/// described, and for each subcommand its values when it was the one given.
pub struct ParsedArgs {
    pub values: Vec<ArgValues>,
    pub subcommands: Vec<Option<Vec<ArgValues>>>,
}

/// The value of a [`ParsedArgs`].
pub struct ParsedModel {
    pub values: Seq<ValuesModel>,
    pub subcommands: Seq<Option<Seq<ValuesModel>>>,
}

impl View for ParsedArgs {
    type V = ParsedModel;

    open spec fn view(&self) -> ParsedModel {
        ParsedModel {
            values: values_models(self.values@),
            subcommands: self.subcommands@.map_values(|o: Option<Vec<ArgValues>>| opt_values_models(o)),
        }
    }
}

/// The texts of a command line.
pub open spec fn argv_texts(argv: Seq<&str>) -> Seq<Seq<char>> {
    argv.map_values(|s: &str| s@)
}

/// Whether an argument is positional.
pub open spec fn is_positional(a: ArgModel) -> bool {
    a.long is None && a.short is None
}

/// A `--long` name that `clap` accepts and that is not one of its own.
pub open spec fn long_ok(l: Seq<char>) -> bool {
    l.len() > 0 && l[0] != '-' && l != "help"@ && l != "version"@
}

/// The checks on one argument that `clap` makes when it builds a command.
pub open spec fn arg_ok(a: ArgModel) -> bool {
    &&& a.id.len() > 0 && a.id != "help"@ && a.id != "version"@
    &&& (a.long is Some ==> long_ok(a.long->0))
    &&& (a.short is Some ==> a.short->0 != 'h' && a.short->0 != '-')
    &&& (is_positional(a) ==> a.kind != ArgKind::Flag)
    &&& (a.last ==> is_positional(a))
    &&& (a.many ==> is_positional(a) && a.kind == ArgKind::Multiple)
}

/// Whether `clap` counts an argument as taking multiple values: it appends
/// (`ArgAction::Append`) or takes many values in one occurrence.
pub open spec fn is_multiple(a: ArgModel) -> bool {
    a.kind == ArgKind::Multiple || a.kind == ArgKind::KeyValue || a.many
}

/// Two arguments that `clap` accepts side by side, the first described before the
/// second: distinct names, and positionals in an order it can fill (only the final one
/// takes many values in one occurrence; a positional taking multiple values is followed
/// only by one that takes what follows `--`; only one takes what follows `--`; and no
/// required positional follows an optional one).
pub open spec fn pair_ok(a: ArgModel, b: ArgModel) -> bool {
    &&& a.id != b.id
    &&& (a.long is Some && b.long is Some ==> a.long != b.long)
    &&& (a.short is Some && b.short is Some ==> a.short != b.short)
    &&& (is_positional(a) && is_positional(b)) ==> {
        &&& !a.many
        &&& (is_multiple(a) ==> b.last)
        &&& !(a.last && b.last)
        &&& (b.required && !b.last ==> a.required)
    }
}

/// Arguments that `clap` accepts together.
pub open spec fn args_ok(args: Seq<ArgModel>) -> bool {
    &&& forall|i: int| 0 <= i < args.len() ==> arg_ok(#[trigger] args[i])
    &&& forall|i: int, j: int| 0 <= i < j < args.len() ==> pair_ok(#[trigger] args[i], #[trigger] args[j])
}

/// A command that `clap` builds without complaint.
pub open spec fn command_ok(c: CommandModel) -> bool {
    &&& args_ok(c.args)
    &&& forall|j: int| 0 <= j < c.subcommands.len() ==> args_ok(#[trigger] c.subcommands[j].args)
        && c.subcommands[j].name.len() > 0 && c.subcommands[j].name != "help"@
    &&& forall|i: int, j: int|
        0 <= i < j < c.subcommands.len() ==> (#[trigger] c.subcommands[i]).name
            != (#[trigger] c.subcommands[j]).name
    &&& c.subcommands.len() > 0 ==> forall|i: int|
        0 <= i < c.args.len() ==> !(#[trigger] c.args[i].last && c.args[i].required)
}

/// What `clap` hands back for one argument: a switch's state, at most one value for a
/// single-valued argument, at least one where the argument is required or has a
/// default, and for a `KEY=VALUE` argument pairs that `parse_key_val` gives for some text.
pub open spec fn value_fits(a: ArgModel, v: ValuesModel) -> bool {
    match v {
        ValuesModel::Flag(_) => a.kind == ArgKind::Flag,
        ValuesModel::Values(vs) => {
            &&& (a.kind == ArgKind::Single || a.kind == ArgKind::Multiple)
            &&& a.kind == ArgKind::Single ==> vs.len() <= 1
            &&& (a.required || a.default_value is Some) ==> vs.len() >= 1
        },
        ValuesModel::Numbers(ns) => {
            &&& a.kind == ArgKind::Number
            &&& ns.len() <= 1
            &&& (a.required || a.default_value is Some) ==> ns.len() >= 1
        },
        ValuesModel::Pairs(ps) => {
            &&& a.kind == ArgKind::KeyValue
            &&& (a.required || a.default_value is Some) ==> ps.len() >= 1
            &&& forall|i: int| 0 <= i < ps.len() ==> is_key_val(#[trigger] ps[i])
        },
    }
}

/// A pair that `parse_key_val` gives for some text.
pub open spec fn is_key_val(p: (Seq<char>, Seq<char>)) -> bool {
    exists|t: Seq<char>| spec_parse_key_val(t) == Ok::<(Seq<char>, Seq<char>), Seq<char>>(p)
}

/// Values that fit a list of arguments, one per argument.
pub open spec fn values_fit(args: Seq<ArgModel>, vals: Seq<ValuesModel>) -> bool {
    &&& vals.len() == args.len()
    &&& forall|i: int| 0 <= i < args.len() ==> value_fits(args[i], #[trigger] vals[i])
}

/// What `clap` hands back for a command: values that fit its arguments, and at most one
/// subcommand (exactly one where one is required) with values that fit that subcommand.
pub open spec fn outcome_fits(c: CommandModel, p: ParsedModel) -> bool {
    &&& values_fit(c.args, p.values)
    &&& p.subcommands.len() == c.subcommands.len()
    &&& forall|j: int|
        0 <= j < c.subcommands.len() && (#[trigger] p.subcommands[j]) is Some ==> values_fit(
            c.subcommands[j].args,
            p.subcommands[j]->0,
        )
    &&& forall|i: int, j: int|
        0 <= i < j < p.subcommands.len() ==> !((#[trigger] p.subcommands[i]) is Some && (
        #[trigger] p.subcommands[j]) is Some)
    &&& c.subcommand_required ==> exists|j: int|
        0 <= j < p.subcommands.len() && (#[trigger] p.subcommands[j]) is Some
}

/// What `clap` makes of a command line for a command: the parsed values, or the message
/// of the error it reports (a missing or unknown argument, a bad value, or a request
/// for help) with whether it is an answer to a request for help or the version, which
/// `clap` prints on the standard output and ends with success.
pub uninterp spec fn clap_outcome(command: CommandModel, argv: Seq<Seq<char>>) -> Result<
    ParsedModel,
    (Seq<char>, bool),
>;

/// The `clap` argument for an [`ArgSpec`], built as `#[derive(Parser)]` builds it for a
/// field with the same attributes. Conversion only.
#[verifier::external_body]
fn clap_arg(a: &ArgSpec) -> clap::Arg {
    let arg = clap::Arg::new(a.id).long(a.long).short(a.short).required(a.required);
    let arg = arg.last(a.last).default_value(a.default_value).help(a.help).value_name(a.value_name);
    let arg = if a.many { arg.num_args(1..) } else { arg };
    match a.kind {
        ArgKind::Flag => arg.action(ArgAction::SetTrue),
        ArgKind::Single => arg.action(ArgAction::Set),
        ArgKind::Multiple => arg.action(ArgAction::Append),
        ArgKind::Number => arg.action(ArgAction::Set).value_parser(
            <u32 as clap::builder::ValueParserFactory>::value_parser(),
        ),
        ArgKind::KeyValue => arg.action(ArgAction::Append).value_parser(
            |t: &str| parse_key_val(t),
        ),
    }
}

/// The parsed values of a list of arguments, read from `clap`'s matches with
/// `ArgMatches::get_flag` and `ArgMatches::get_many`, each with the type its value
/// parser gives. Conversion only.
#[verifier::external_body]
fn clap_values(args: &Vec<ArgSpec>, m: &clap::ArgMatches) -> Vec<ArgValues> {
    args.iter().map(|a| match a.kind {
        ArgKind::Flag => ArgValues::Flag(m.get_flag(a.id)),
        ArgKind::Number => ArgValues::Numbers(
            m.get_many::<u32>(a.id).map(|vs| vs.copied().collect()).unwrap_or_default(),
        ),
        ArgKind::KeyValue => ArgValues::Pairs(
            m.get_many::<(String, String)>(a.id).map(|vs| vs.cloned().collect()).unwrap_or_default(),
        ),
        _ => ArgValues::Values(
            m.get_many::<String>(a.id).map(|vs| vs.cloned().collect()).unwrap_or_default(),
        ),
    }).collect()
}

/// The `clap` command for a [`CommandSpec`]: its arguments (see `clap_arg`), a subcommand
/// per leaf, and `subcommand_required` with `arg_required_else_help` when a subcommand
/// must be given, as `#[derive(Parser)]` builds them. Conversion only.
#[verifier::external_body]
fn clap_command(spec: &CommandSpec) -> clap::Command {
    let leaf = |name: &'static str, about: Option<&'static str>, args: &Vec<ArgSpec>| {
        args.iter().fold(clap::Command::new(name).about(about), |c, a| c.arg(clap_arg(a)))
    };
    let cmd = spec.subcommands.iter().fold(leaf(spec.name, spec.about, &spec.args), |c, s| {
        c.subcommand(leaf(s.name, s.about, &s.args))
    });
    let required = spec.subcommand_required;
    cmd.subcommand_required(required).arg_required_else_help(required)
}

/// Parses `argv` (the command's name first) with `clap::Command::try_get_matches_from`,
/// for the command `clap_command` builds from `spec`. The result is named
/// [`clap_outcome`]; of it this states only what `clap`'s source and documentation give:
/// the values fit the described arguments (a `KEY=VALUE` value is what `parse_key_val`
/// returned for it, as `clap` keeps its value parser's result), at most one subcommand was
/// given (exactly one where one is required), and an error tells whether it answers a
/// request for help or the version (`Error::use_stderr` false). In debug builds `clap`
/// asserts that a command is well formed before parsing (`debug_asserts.rs`: names,
/// actions, and the order of positionals, where a positional taking multiple values must
/// be second to last and followed by one marked `last`); `command_ok` requires each of
/// those conditions, so the assertions hold.
#[verifier::external_body]
pub(crate) fn clap_parse(spec: &CommandSpec, argv: &[&str]) -> (r: Result<ParsedArgs, (String, bool)>)
    requires
        command_ok(spec@),
    ensures
        match r {
            Ok(p) => clap_outcome(spec@, argv_texts(argv@)) == Ok::<ParsedModel, (Seq<char>, bool)>(
                p@,
            ) && outcome_fits(spec@, p@),
            Err((m, answered)) => clap_outcome(spec@, argv_texts(argv@)) == Err::<
                ParsedModel,
                (Seq<char>, bool),
            >((m@, answered)),
        },
{
    match clap_command(spec).try_get_matches_from(argv.iter().copied()) {
        Ok(m) => Ok(ParsedArgs {
            values: clap_values(&spec.args, &m),
            subcommands: spec.subcommands.iter().map(|s| {
                m.subcommand_matches(s.name).map(|sm| clap_values(&s.args, sm))
            }).collect(),
        }),
        Err(e) => Err((e.to_string(), !e.use_stderr())),
    }
}

/// Why a command line was not accepted.
#[derive(Debug)]
pub enum ArgsError {
    /// `clap` rejected it (a missing or unknown argument, or a value its parser
    /// refused); its message.
    Rejected(String),
    /// `clap` answered a request for help or the version; the text to show.
    Answered(String),
}

/// The message of an [`ArgsError`].
pub open spec fn args_error_message(e: ArgsError) -> Seq<char> {
    match e {
        ArgsError::Rejected(m) => m@,
        ArgsError::Answered(m) => m@,
    }
}

impl ArgsError {
    /// The error's message.
    pub fn message(&self) -> (r: String)
        ensures
            r@ == args_error_message(*self),
    {
        match self {
            ArgsError::Rejected(m) => m.clone(),
            ArgsError::Answered(m) => m.clone(),
        }
    }
}

/// A switch's state.
pub open spec fn flag_of(v: ValuesModel) -> bool {
    v matches ValuesModel::Flag(b) && b
}

/// The single value of an argument that always has one.
pub open spec fn single_of(v: ValuesModel) -> Seq<char> {
    v->Values_0[0]
}

/// The value of an optional single-valued argument.
pub open spec fn optional_of(v: ValuesModel) -> Option<Seq<char>> {
    if v->Values_0.len() == 0 {
        None
    } else {
        Some(v->Values_0[0])
    }
}

/// All values of an argument.
pub open spec fn all_of(v: ValuesModel) -> Seq<Seq<char>> {
    v->Values_0
}

/// Reads a switch.
pub fn read_flag(v: &ArgValues) -> (r: bool)
    requires
        v@ is Flag,
    ensures
        r == flag_of(v@),
{
    match v {
        ArgValues::Flag(b) => *b,
        _ => false,
    }
}

/// Reads the value of an argument that always has one.
pub fn read_single(v: &ArgValues) -> (r: String)
    requires
        v@ is Values,
        v@->Values_0.len() >= 1,
    ensures
        r@ == single_of(v@),
{
    match v {
        ArgValues::Values(vs) => vs[0].clone(),
        _ => String::new(),
    }
}

/// Reads the value of an optional single-valued argument.
pub fn read_optional(v: &ArgValues) -> (r: Option<String>)
    requires
        v@ is Values,
    ensures
        str_opt_of(r) == optional_of(v@),
{
    match v {
        ArgValues::Values(vs) => {
            if vs.len() == 0 {
                None
            } else {
                Some(vs[0].clone())
            }
        },
        _ => None,
    }
}

/// The text of an optional string.
pub open spec fn str_opt_of(o: Option<String>) -> Option<Seq<char>> {
    match o {
        Some(s) => Some(s@),
        None => None,
    }
}

/// Reads all values of an argument.
pub fn read_all(v: &ArgValues) -> (r: Vec<String>)
    requires
        v@ is Values,
    ensures
        texts(r@) == all_of(v@),
{
    match v {
        ArgValues::Values(vs) => {
            let mut out: Vec<String> = Vec::new();
            let mut i: usize = 0;
            while i < vs.len()
                invariant
                    i <= vs.len(),
                    texts(out@) == texts(vs@).take(i as int),
                decreases vs.len() - i,
            {
                out.push(vs[i].clone());
                assert(texts(vs@).take(i + 1) == texts(vs@).take(i as int).push(vs@[i as int]@));
                i = i + 1;
            }
            assert(texts(vs@).take(vs@.len() as int) == texts(vs@));
            out
        },
        _ => Vec::new(),
    }
}

/// The number of an argument that always has one.
pub open spec fn number_of(v: ValuesModel) -> u32 {
    v->Numbers_0[0]
}

/// The pairs of a `KEY=VALUE` argument.
pub open spec fn pairs_of(v: ValuesModel) -> Seq<(Seq<char>, Seq<char>)> {
    v->Pairs_0
}

/// Reads the number of an argument that always has one.
pub fn read_number(v: &ArgValues) -> (r: u32)
    requires
        v@ is Numbers,
        v@->Numbers_0.len() >= 1,
    ensures
        r == number_of(v@),
{
    match v {
        ArgValues::Numbers(ns) => ns[0],
        _ => 0,
    }
}

/// Reads the pairs of a `KEY=VALUE` argument.
pub fn read_pairs(v: &ArgValues) -> (r: Vec<(String, String)>)
    requires
        v@ is Pairs,
    ensures
        pair_views(r@) == pairs_of(v@),
{
    match v {
        ArgValues::Pairs(ps) => {
            let mut out: Vec<(String, String)> = Vec::new();
            let mut i: usize = 0;
            while i < ps.len()
                invariant
                    i <= ps.len(),
                    pair_views(out@) == pair_views(ps@).take(i as int),
                decreases ps.len() - i,
            {
                let k = ps[i].0.clone();
                let x = ps[i].1.clone();
                let ghost before = out@;
                out.push((k, x));
                assert(pair_views(out@) =~= pair_views(before).push((ps@[i as int].0@, ps@[i as int].1@)));
                assert(pair_views(ps@).take(i + 1) =~= pair_views(ps@).take(i as int).push(
                    (ps@[i as int].0@, ps@[i as int].1@),
                ));
                i = i + 1;
            }
            assert(pair_views(ps@).take(ps@.len() as int) =~= pair_views(ps@));
            out
        },
        _ => Vec::new(),
    }
}

/// An argument that takes values, with neither a name nor a default.
pub open spec fn arg_model(id: Seq<char>, kind: ArgKind) -> ArgModel {
    ArgModel {
        id,
        long: None,
        short: None,
        kind,
        required: false,
        default_value: None,
        last: false,
        many: false,
        help: None,
        value_name: None,
    }
}

impl ArgModel {
    /// With a `--long` name.
    pub open spec fn with_long(self, l: Seq<char>) -> ArgModel {
        ArgModel { long: Some(l), ..self }
    }

    /// With a `-s` name.
    pub open spec fn with_short(self, c: char) -> ArgModel {
        ArgModel { short: Some(c), ..self }
    }

    /// Required.
    pub open spec fn with_required(self) -> ArgModel {
        ArgModel { required: true, ..self }
    }

    /// With a default value.
    pub open spec fn with_default(self, d: Seq<char>) -> ArgModel {
        ArgModel { default_value: Some(d), ..self }
    }

    /// Taking only the values after `--`.
    pub open spec fn with_last(self) -> ArgModel {
        ArgModel { last: true, ..self }
    }

    /// Taking all following values in one occurrence.
    pub open spec fn with_many(self) -> ArgModel {
        ArgModel { many: true, ..self }
    }

    /// With a line of help.
    pub open spec fn with_help(self, h: Seq<char>) -> ArgModel {
        ArgModel { help: Some(h), ..self }
    }

    /// With a placeholder for its values.
    pub open spec fn with_value_name(self, v: Seq<char>) -> ArgModel {
        ArgModel { value_name: Some(v), ..self }
    }
}

impl ArgSpec {
    /// An argument that takes values, with neither a name nor a default.
    pub fn new(id: &'static str, kind: ArgKind) -> (r: ArgSpec)
        ensures
            r@ == arg_model(id@, kind),
    {
        ArgSpec {
            id,
            long: None,
            short: None,
            kind,
            required: false,
            default_value: None,
            last: false,
            many: false,
            help: None,
            value_name: None,
        }
    }

    /// With a `--long` name.
    pub fn long(self, l: &'static str) -> (r: ArgSpec)
        ensures
            r@ == self@.with_long(l@),
    {
        ArgSpec { long: Some(l), ..self }
    }

    /// With a `-s` name.
    pub fn short(self, c: char) -> (r: ArgSpec)
        ensures
            r@ == self@.with_short(c),
    {
        ArgSpec { short: Some(c), ..self }
    }

    /// Required.
    pub fn required(self) -> (r: ArgSpec)
        ensures
            r@ == self@.with_required(),
    {
        ArgSpec { required: true, ..self }
    }

    /// With a default value.
    pub fn default_value(self, d: &'static str) -> (r: ArgSpec)
        ensures
            r@ == self@.with_default(d@),
    {
        ArgSpec { default_value: Some(d), ..self }
    }

    /// Taking only the values after `--`.
    pub fn last(self) -> (r: ArgSpec)
        ensures
            r@ == self@.with_last(),
    {
        ArgSpec { last: true, ..self }
    }

    /// Taking all following values in one occurrence.
    pub fn many(self) -> (r: ArgSpec)
        ensures
            r@ == self@.with_many(),
    {
        ArgSpec { many: true, ..self }
    }

    /// With a line of help.
    pub fn help(self, h: &'static str) -> (r: ArgSpec)
        ensures
            r@ == self@.with_help(h@),
    {
        ArgSpec { help: Some(h), ..self }
    }

    /// With a placeholder for its values.
    pub fn value_name(self, v: &'static str) -> (r: ArgSpec)
        ensures
            r@ == self@.with_value_name(v@),
    {
        ArgSpec { value_name: Some(v), ..self }
    }
}

/// A command without subcommands.
pub open spec fn leaf_command(name: Seq<char>, about: Option<Seq<char>>, args: Seq<ArgModel>) -> CommandModel {
    CommandModel { name, about, args, subcommands: Seq::empty(), subcommand_required: false }
}

/// A command without subcommands.
pub fn leaf_command_spec(name: &'static str, about: &'static str, args: Vec<ArgSpec>) -> (r: CommandSpec)
    ensures
        r@ == leaf_command(name@, Some(about@), arg_models(args@)),
{
    let r = CommandSpec { name, about: Some(about), args, subcommands: Vec::new(), subcommand_required: false };
    assert(r@.subcommands =~= Seq::<LeafModel>::empty());
    r
}

} // verus!
