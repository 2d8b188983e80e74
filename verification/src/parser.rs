//! What this crate assumes of `clap`: the part of a command tree that the
//! builder sets, the part of a parse result that the dispatcher reads, and a
//! contract for each `clap` function that is called.
//!
//! Nothing in this module is proved. Each contract restates what the named
//! function of `clap` does to the fields that the models below speak of.

use vstd::prelude::*;

verus! {

/// `clap::Arg`, one argument of a command.
#[verifier::external_type_specification]
#[verifier::external_body]
pub struct ExArg(clap::Arg);

/// `clap::Command`, a command with its arguments and subcommands.
#[verifier::external_type_specification]
#[verifier::external_body]
pub struct ExCommand(clap::Command);

/// `clap::ArgMatches`, what parsing a command line against a command gave.
#[verifier::external_type_specification]
#[verifier::external_body]
pub struct ExArgMatches(clap::ArgMatches);

/// What an argument holds, as far as this crate looks at it: its id
/// (`Arg::get_id`), its short and its long flag (`Arg::get_short`,
/// `Arg::get_long`), the help text it was given (`Arg::get_help`, as it was
/// passed in) and whether it is required (`Arg::is_required_set`). An
/// argument with neither flag is positional.
pub struct ArgModel {
    pub id: Seq<char>,
    pub short: Option<char>,
    pub long: Option<Seq<char>>,
    pub help: Option<Seq<char>>,
    pub required: bool,
}

/// What a command holds, as far as this crate looks at it: its name
/// (`Command::get_name`), its version (`Command::get_version`), the
/// description it was given (`Command::get_about`, as it was passed in), its
/// arguments in the order in which they were added
/// (`Command::get_arguments`) and its subcommands in the order in which they
/// were added (`Command::get_subcommands`).
pub struct CommandModel {
    pub name: Seq<char>,
    pub version: Option<Seq<char>>,
    pub about: Option<Seq<char>>,
    pub args: Seq<ArgModel>,
    pub subcommands: Seq<CommandModel>,
}

/// What `arg` holds.
pub uninterp spec fn arg_model(arg: clap::Arg) -> ArgModel;

/// What `command` holds.
pub uninterp spec fn command_model(command: clap::Command) -> CommandModel;

/// The subcommand that was matched, with its name and its own matches: what
/// `ArgMatches::subcommand` returns.
pub uninterp spec fn matched_subcommand(matches: clap::ArgMatches) -> Option<
    (Seq<char>, clap::ArgMatches),
>;

/// The first value matched for the argument `id`, where there is one and it
/// is a `String`: what `ArgMatches::try_get_one::<String>` finds.
pub uninterp spec fn matched_value(matches: clap::ArgMatches, id: Seq<char>) -> Option<Seq<char>>;

/// `clap::Arg::new`: an argument with the given id, no flag, no help text,
/// not required.
#[verifier::external_body]
pub(crate) fn arg_new(id: &'static str) -> (arg: clap::Arg)
    ensures
        arg_model(arg) == (ArgModel {
            id: id@,
            short: None,
            long: None,
            help: None,
            required: false,
        }),
{
    clap::Arg::new(id)
}

/// `clap::Arg::help`: the same argument with its help text replaced.
#[verifier::external_body]
pub(crate) fn arg_help(arg: clap::Arg, help: &String) -> (changed: clap::Arg)
    ensures
        arg_model(changed) == (ArgModel { help: Some(help@), ..arg_model(arg) }),
{
    arg.help(help)
}

/// `clap::Arg::required`: the same argument, required or not as `yes` says.
#[verifier::external_body]
pub(crate) fn arg_required(arg: clap::Arg, yes: bool) -> (changed: clap::Arg)
    ensures
        arg_model(changed) == (ArgModel { required: yes, ..arg_model(arg) }),
{
    arg.required(yes)
}

/// `clap::Command::new`: a command with the given name and nothing else.
#[verifier::external_body]
pub(crate) fn command_new(name: &'static str) -> (command: clap::Command)
    ensures
        command_model(command) == (CommandModel {
            name: name@,
            version: None,
            about: None,
            args: Seq::empty(),
            subcommands: Seq::empty(),
        }),
{
    clap::Command::new(name)
}

/// `clap::Command::version`: the same command with its version replaced.
#[verifier::external_body]
pub(crate) fn command_version(command: clap::Command, version: &'static str) -> (changed:
    clap::Command)
    ensures
        command_model(changed) == (CommandModel {
            version: Some(version@),
            ..command_model(command)
        }),
{
    command.version(version)
}

/// `clap::Command::about`: the same command with its description replaced.
#[verifier::external_body]
pub(crate) fn command_about(command: clap::Command, about: &'static str) -> (changed:
    clap::Command)
    ensures
        command_model(changed) == (CommandModel { about: Some(about@), ..command_model(command) }),
{
    command.about(about)
}

/// `clap::Command::arg`: the same command with `arg` behind its other
/// arguments.
#[verifier::external_body]
pub(crate) fn command_arg(command: clap::Command, arg: clap::Arg) -> (changed: clap::Command)
    ensures
        command_model(changed) == (CommandModel {
            args: command_model(command).args.push(arg_model(arg)),
            ..command_model(command)
        }),
{
    command.arg(arg)
}

/// `clap::Command::subcommand`: the same command with `subcommand` behind
/// its other subcommands.
#[verifier::external_body]
pub(crate) fn command_subcommand(command: clap::Command, subcommand: clap::Command) -> (changed:
    clap::Command)
    ensures
        command_model(changed) == (CommandModel {
            subcommands: command_model(command).subcommands.push(command_model(subcommand)),
            ..command_model(command)
        }),
{
    command.subcommand(subcommand)
}

/// `clap::ArgMatches::subcommand`: the name and the matches of the
/// subcommand that was matched, if one was.
#[verifier::external_body]
pub(crate) fn subcommand_of(matches: &clap::ArgMatches) -> (found: Option<
    (&str, &clap::ArgMatches),
>)
    ensures
        match found {
            Some((name, sub_matches)) => matched_subcommand(*matches) == Some(
                (name@, *sub_matches),
            ),
            None => matched_subcommand(*matches) is None,
        },
{
    matches.subcommand()
}

/// `clap::ArgMatches::try_get_one::<String>`: a copy of the first value
/// matched for `id`. An id that the matches do not know and a value that is
/// no `String` are errors there and count as no value here.
#[verifier::external_body]
pub(crate) fn value_of(matches: &clap::ArgMatches, id: &str) -> (value: Option<String>)
    ensures
        value.deep_view() == matched_value(*matches, id@),
{
    matches.try_get_one::<String>(id).ok().flatten().cloned()
}

} // verus!
