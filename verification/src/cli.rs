//! The command line of the preprocessor, and what an invocation does.

use crate::failure::Failure;
use crate::preprocessor::NopPreprocessor;
use crate::protocol::book_json;
use crate::protocol::parsed_input;
use crate::transform::handle_preprocessing;
use crate::transform::handle_supports;
use crate::transform::support_answer;
use crate::transform::transform_output;
use clap::App;
use clap::AppSettings;
use clap::Arg;
use clap::ArgMatches;
use clap::SubCommand;
use vstd::prelude::*;

verus! {

/// `clap::App`: the description of a command line.
#[verifier::external_type_specification]
#[verifier::external_body]
pub struct ExApp<'a, 'b>(clap::App<'a, 'b>) where 'a: 'b;

/// `clap::Arg`: the description of one argument.
#[verifier::external_type_specification]
#[verifier::external_body]
pub struct ExArg<'a, 'b>(clap::Arg<'a, 'b>) where 'a: 'b;

/// `clap::ArgMatches`: what `clap` found on a command line.
#[verifier::external_type_specification]
#[verifier::external_body]
pub struct ExArgMatches<'a>(clap::ArgMatches<'a>);

/// `clap::Error`: why `clap` turned a command line down, or the help that was
/// asked for.
#[verifier::external_type_specification]
#[verifier::external_body]
pub struct ExUsageError(clap::Error);

/// The application that `clap::App::new` makes for `name`.
pub uninterp spec fn app_named(name: Seq<char>) -> App<'static, 'static>;

/// `app` after `clap::App::about` has given it the description `about`.
pub uninterp spec fn app_with_about(app: App<'static, 'static>, about: Seq<char>) -> App<'static, 'static>;

/// `app` after `clap::App::setting` has set
/// `clap::AppSettings::AllowExternalSubcommands` on it.
pub uninterp spec fn app_with_external_subcommands(app: App<'static, 'static>) -> App<'static, 'static>;

/// `app` after `clap::App::setting` has set
/// `clap::AppSettings::AllowLeadingHyphen` on it.
pub uninterp spec fn app_with_leading_hyphen(app: App<'static, 'static>) -> App<'static, 'static>;

/// `app` after `clap::App::subcommand` has added `subcommand` to it.
pub uninterp spec fn app_with_subcommand(app: App<'static, 'static>, subcommand: App<'static, 'static>) -> App<
    'static,
    'static,
>;

/// `app` after `clap::App::arg` has added `argument` to it.
pub uninterp spec fn app_with_argument(app: App<'static, 'static>, argument: Arg<'static, 'static>) -> App<
    'static,
    'static,
>;

/// The subcommand that `clap::SubCommand::with_name` makes for `name`.
pub uninterp spec fn subcommand_named(name: Seq<char>) -> App<'static, 'static>;

/// The argument that `clap::Arg::with_name` makes for `name`: a positional
/// one, as long as nothing gives it a short or a long form.
pub uninterp spec fn argument_named(name: Seq<char>) -> Arg<'static, 'static>;

/// `argument` after `clap::Arg::required` has been called on it with
/// `required`.
pub uninterp spec fn argument_with_required(argument: Arg<'static, 'static>, required: bool) -> Arg<'static, 'static>;

/// What `clap::App::get_matches_from_safe` finds when `app` reads `args`, the
/// program's name first; `None` where it reports an error.
pub uninterp spec fn parsed_arguments(app: App<'static, 'static>, args: Seq<Seq<char>>) -> Option<ArgMatches<'static>>;

/// What `clap::ArgMatches::subcommand_matches` finds in `matches` for the
/// subcommand `name`.
pub uninterp spec fn matched_subcommand(matches: ArgMatches<'static>, name: Seq<char>) -> Option<ArgMatches<'static>>;

/// The first value that `matches` holds for the argument `name`, as
/// `clap::ArgMatches::value_of_lossy` gives it.
pub uninterp spec fn matched_value(matches: ArgMatches<'static>, name: Seq<char>) -> Option<Seq<char>>;

/// Calls `clap::App::new`, and calls what it returns `app_named`.
#[verifier::external_body]
fn new_app(name: &'static str) -> (app: App<'static, 'static>)
    ensures
        app == app_named(name@),
{
    App::new(name)
}

/// Calls `clap::App::about`, and calls what it returns `app_with_about`.
#[verifier::external_body]
fn with_about(app: App<'static, 'static>, text: &'static str) -> (described: App<'static, 'static>)
    ensures
        described == app_with_about(app, text@),
{
    app.about(text)
}

/// Calls `clap::App::setting` with
/// `clap::AppSettings::AllowExternalSubcommands`, after which the
/// application takes a first word that it does not know for a subcommand of
/// somebody else's. The contract calls what it returns
/// `app_with_external_subcommands`.
#[verifier::external_body]
fn allow_external_subcommands(app: App<'static, 'static>) -> (lenient: App<'static, 'static>)
    ensures
        lenient == app_with_external_subcommands(app),
{
    app.setting(AppSettings::AllowExternalSubcommands)
}

/// Calls `clap::App::setting` with `clap::AppSettings::AllowLeadingHyphen`,
/// after which the application takes a word that begins with a hyphen, and
/// that is none of its options, for a value. The contract calls what it
/// returns `app_with_leading_hyphen`.
#[verifier::external_body]
fn allow_leading_hyphen(app: App<'static, 'static>) -> (lenient: App<'static, 'static>)
    ensures
        lenient == app_with_leading_hyphen(app),
{
    app.setting(AppSettings::AllowLeadingHyphen)
}

/// Calls `clap::App::subcommand`, and calls what it returns
/// `app_with_subcommand`.
#[verifier::external_body]
fn with_subcommand(app: App<'static, 'static>, added: App<'static, 'static>) -> (extended: App<'static, 'static>)
    ensures
        extended == app_with_subcommand(app, added),
{
    app.subcommand(added)
}

/// Calls `clap::App::arg`, and calls what it returns `app_with_argument`. It
/// is for the renderer on the new subcommand `supports` alone: `clap` panics
/// where the application holds an argument of the same name, form or place
/// already, and a new subcommand holds none.
#[verifier::external_body]
fn with_argument(app: App<'static, 'static>, argument: Arg<'static, 'static>) -> (extended: App<'static, 'static>)
    requires
        app == subcommand_named(supports_subcommand()),
        argument == renderer_app_argument(),
    ensures
        extended == app_with_argument(app, argument),
{
    app.arg(argument)
}

/// Calls `clap::SubCommand::with_name`, and calls what it returns
/// `subcommand_named`.
#[verifier::external_body]
fn new_subcommand(name: &'static str) -> (subcommand: App<'static, 'static>)
    ensures
        subcommand == subcommand_named(name@),
{
    SubCommand::with_name(name)
}

/// Calls `clap::Arg::with_name`, and calls what it returns `argument_named`.
#[verifier::external_body]
fn new_argument(name: &'static str) -> (argument: Arg<'static, 'static>)
    ensures
        argument == argument_named(name@),
{
    Arg::with_name(name)
}

/// Calls `clap::Arg::required`, and calls what it returns
/// `argument_with_required`.
#[verifier::external_body]
fn with_required(argument: Arg<'static, 'static>, wanted: bool) -> (marked: Arg<'static, 'static>)
    ensures
        marked == argument_with_required(argument, wanted),
{
    argument.required(wanted)
}

/// Calls `clap::App::get_matches_from_safe`, which takes the first of `args`
/// for the program's name. It is for the application of this command alone:
/// `clap` panics on some applications that are put together wrongly. The
/// contract claims that what is found depends on `app` and `args` alone, and
/// calls it `parsed_arguments`; it says nothing of the error.
#[verifier::external_body]
fn get_matches_from_safe(app: App<'static, 'static>, args: &Vec<String>) -> (parsed: Result<
    ArgMatches<'static>,
    clap::Error,
>)
    requires
        app == nop_app(),
    ensures
        match parsed {
            Ok(matches) => parsed_arguments(app, args.deep_view()) == Some(matches),
            Err(_) => parsed_arguments(app, args.deep_view()).is_none(),
        },
{
    app.get_matches_from_safe(args)
}

/// Calls `clap::ArgMatches::subcommand_matches`, and calls what it returns
/// `matched_subcommand`.
#[verifier::external_body]
fn subcommand_matches<'m>(matches: &'m ArgMatches<'static>, name: &str) -> (sub: Option<&'m ArgMatches<'static>>)
    ensures
        match sub {
            Some(sub_matches) => matched_subcommand(*matches, name@) == Some(*sub_matches),
            None => matched_subcommand(*matches, name@).is_none(),
        },
{
    matches.subcommand_matches(name)
}

/// Calls `clap::ArgMatches::value_of_lossy`, which cannot panic, and calls
/// what it returns `matched_value`.
#[verifier::external_body]
fn value_of(matches: &ArgMatches<'static>, name: &str) -> (value: Option<String>)
    ensures
        match value {
            Some(text) => matched_value(*matches, name@) == Some(text@),
            None => matched_value(*matches, name@).is_none(),
        },
{
    match matches.value_of_lossy(name) {
        Some(text) => Some(text.into_owned()),
        None => None,
    }
}

/// What the host asks of one run of the command.
#[derive(Debug, PartialEq, Eq)]
pub enum Invocation {
    /// Does the preprocessor work with this renderer?
    SupportsQuery(String),
    /// Process the book on the input.
    RunTransform,
}

/// An [`Invocation`] as a mathematical value.
pub enum Mode {
    SupportsQuery(Seq<char>),
    RunTransform,
}

impl View for Invocation {
    type V = Mode;

    open spec fn view(&self) -> Mode {
        match self {
            Invocation::SupportsQuery(renderer) => Mode::SupportsQuery(renderer@),
            Invocation::RunTransform => Mode::RunTransform,
        }
    }
}

/// Why a command line did not give an [`Invocation`].
#[derive(Debug)]
pub enum Rejection {
    /// `clap` turned the command line down, or was asked for help; the error
    /// holds the text to print.
    Usage(clap::Error),
    /// The command line names the subcommand `supports`, yet holds no
    /// renderer for it. So it is behind `--`, where `clap` takes `supports`
    /// for a subcommand of somebody else's.
    MissingRenderer,
}

/// The name of the command.
pub open spec fn program_name() -> Seq<char> {
    "nop-processor"@
}

/// The subcommand by which the host asks about a renderer.
pub open spec fn supports_subcommand() -> Seq<char> {
    "supports"@
}

/// The argument of that subcommand.
pub open spec fn renderer_argument() -> Seq<char> {
    "renderer"@
}

/// The description that the command gives of itself.
pub open spec fn program_about() -> Seq<char> {
    "Why tf are all the preprocessors failing"@
}

/// The description of the subcommand `supports`.
pub open spec fn supports_about() -> Seq<char> {
    "Check whether a renderer is supported by this preprocessor"@
}

/// The one argument of the subcommand `supports`: the renderer, which must
/// be there.
pub open spec fn renderer_app_argument() -> Arg<'static, 'static> {
    argument_with_required(argument_named(renderer_argument()), true)
}

/// The subcommand `supports`: its one argument, then its description. It
/// takes a word that begins with a hyphen, and that is none of its options,
/// for the renderer.
pub open spec fn supports_app() -> App<'static, 'static> {
    app_with_leading_hyphen(
        app_with_about(
            app_with_argument(subcommand_named(supports_subcommand()), renderer_app_argument()),
            supports_about(),
        ),
    )
}

/// The command line of the preprocessor: an application called
/// `nop-processor` with its description, which takes a first word that it
/// does not know for a subcommand of somebody else's, and which has one
/// subcommand of its own, `supports`. It has no argument of its own.
pub open spec fn nop_app() -> App<'static, 'static> {
    app_with_subcommand(
        app_with_external_subcommands(app_with_about(app_named(program_name()), program_about())),
        supports_app(),
    )
}

/// The mode that `matches` stand for: a query where they hold the subcommand
/// `supports` with a renderer, the transformation where they hold no such
/// subcommand, and `None` where the subcommand is there without a renderer.
pub open spec fn selected_mode(matches: ArgMatches<'static>) -> Option<Mode> {
    match matched_subcommand(matches, supports_subcommand()) {
        Some(sub_matches) => match matched_value(sub_matches, renderer_argument()) {
            Some(renderer) => Some(Mode::SupportsQuery(renderer)),
            None => None,
        },
        None => Some(Mode::RunTransform),
    }
}

/// Describes the command line of the preprocessor.
pub fn make_app() -> (app: App<'static, 'static>)
    ensures
        app == nop_app(),
{
    let renderer = with_required(new_argument("renderer"), true);
    let supports = allow_leading_hyphen(
        with_about(
            with_argument(new_subcommand("supports"), renderer),
            "Check whether a renderer is supported by this preprocessor",
        ),
    );
    let app = with_about(new_app("nop-processor"), "Why tf are all the preprocessors failing");
    with_subcommand(allow_external_subcommands(app), supports)
}

/// Tells which mode `matches` stand for.
pub fn select(matches: &ArgMatches<'static>) -> (selected: Result<Invocation, Rejection>)
    ensures
        match selected {
            Ok(invocation) => selected_mode(*matches) == Some(invocation@),
            Err(rejection) => rejection is MissingRenderer && selected_mode(*matches).is_none(),
        },
{
    match subcommand_matches(matches, "supports") {
        Some(sub_matches) => match value_of(sub_matches, "renderer") {
            Some(renderer) => Ok(Invocation::SupportsQuery(renderer)),
            None => Err(Rejection::MissingRenderer),
        },
        None => Ok(Invocation::RunTransform),
    }
}

/// The mode that the command line `args` asks for, the program's name first;
/// `None` where it asks for none.
pub open spec fn requested_mode(args: Seq<Seq<char>>) -> Option<Mode> {
    match parsed_arguments(nop_app(), args) {
        Some(matches) => selected_mode(matches),
        None => None,
    }
}

/// Reads the command line `args`, the program's name first. `Usage` exactly
/// where `clap` turns the command line down or is asked for help or for the
/// version; asked for the version, `clap` writes it to the standard output
/// before it answers.
///
/// After `supports`, any one word is the renderer, but for the options that
/// `clap` gives every command (`-h`, `--help`, `-V`, `--version`) and for
/// `--`, which ends the options and is itself no word. A first word other
/// than `supports` asks for the transformation.
pub fn parse_args(args: &Vec<String>) -> (parsed: Result<Invocation, Rejection>)
    ensures
        match parsed {
            Ok(invocation) => requested_mode(args.deep_view()) == Some(invocation@),
            Err(rejection) => requested_mode(args.deep_view()).is_none() && (rejection is Usage
                <==> parsed_arguments(nop_app(), args.deep_view()).is_none()),
        },
{
    match get_matches_from_safe(make_app(), args) {
        Ok(matches) => select(&matches),
        Err(error) => Err(Rejection::Usage(error)),
    }
}

impl Invocation {
    /// Whether this invocation reads the input: only the transformation does.
    pub fn reads_input(&self) -> (reads: bool)
        ensures
            reads == (self@ is RunTransform),
    {
        match self {
            Invocation::SupportsQuery(_) => false,
            Invocation::RunTransform => true,
        }
    }
}

/// What an invocation in `mode` with `input` on the standard input comes to:
/// nothing to write after a query that is answered with yes, the bytes to
/// write after a transformation, or the failure.
pub open spec fn outcome(mode: Mode, input: Seq<u8>) -> Result<Option<Seq<u8>>, Failure> {
    match mode {
        Mode::SupportsQuery(renderer) => match support_answer(&NopPreprocessor, renderer) {
            Ok(_) => Ok(None),
            Err(failure) => Err(failure),
        },
        Mode::RunTransform => match transform_output(&NopPreprocessor, input) {
            Ok(bytes) => Ok(Some(bytes)),
            Err(failure) => Err(failure),
        },
    }
}

/// Does what `invocation` asks of [`NopPreprocessor`]. `input` is what the
/// standard input holds; a query does not look at it. Where bytes come back,
/// they are the whole of what goes to the standard output.
pub fn try_main(invocation: &Invocation, input: &[u8]) -> (done: Result<Option<Vec<u8>>, Failure>)
    ensures
        match done {
            Ok(Some(bytes)) => outcome(invocation@, input@) == Ok::<Option<Seq<u8>>, Failure>(Some(bytes@)),
            Ok(None) => outcome(invocation@, input@) == Ok::<Option<Seq<u8>>, Failure>(None),
            Err(failure) => outcome(invocation@, input@) == Err::<Option<Seq<u8>>, Failure>(failure),
        },
{
    let pre = NopPreprocessor;
    match invocation {
        Invocation::SupportsQuery(renderer) => match handle_supports(&pre, renderer.as_str()) {
            Ok(_) => Ok(None),
            Err(failure) => Err(failure),
        },
        Invocation::RunTransform => match handle_preprocessing(&pre, input) {
            Ok(bytes) => Ok(Some(bytes)),
            Err(failure) => Err(failure),
        },
    }
}

/// A query about a renderer always succeeds and writes nothing, whatever the
/// renderer and whatever waits on the input.
pub proof fn query_always_succeeds(renderer: Seq<char>, input: Seq<u8>)
    ensures
        outcome(Mode::SupportsQuery(renderer), input) == Ok::<Option<Seq<u8>>, Failure>(None),
{
}

/// A transformation writes the JSON of the very book that the input holds:
/// it succeeds exactly where the input can be read and that book can be
/// written.
pub proof fn transform_writes_the_book_it_read(input: Seq<u8>)
    ensures
        outcome(Mode::RunTransform, input) == (match parsed_input(input) {
            Some((_, book)) => match book_json(book) {
                Some(bytes) => Ok::<Option<Seq<u8>>, Failure>(Some(bytes)),
                None => Err(Failure::Format),
            },
            None => Err(Failure::Format),
        }),
{
}

/// A transformation whose input cannot be read fails with `Format` and has
/// nothing to write.
pub proof fn unreadable_input_fails(input: Seq<u8>)
    ensures
        parsed_input(input).is_none() ==> outcome(Mode::RunTransform, input) == Err::<Option<Seq<u8>>, Failure>(
            Failure::Format,
        ),
{
}

} // verus!
