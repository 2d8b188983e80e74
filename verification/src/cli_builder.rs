//! From a description to a parser, and from a parse result to an action.
//!
//! [`build_cli`] turns a [`CliConfig`] into the `clap` command that parses
//! its command line. [`execute_cli`] takes what that command parsed, finds
//! the command that was named, collects its argument values and runs its
//! action.

use crate::config::{
    is_first_named, none_named, ActionOutcome, ArgView, CliConfig, CliView, CommandConfig,
    CommandView,
};
use crate::parser::{
    arg_help, arg_model, arg_new, arg_required, command_about, command_arg, command_model,
    command_new, command_subcommand, command_version, matched_subcommand, matched_value,
    subcommand_of, value_of, ArgModel, CommandModel,
};
use crate::text::joined;
use vstd::prelude::*;

verus! {

/// The argument that the parser is given for `arg`: a positional argument
/// with the argument's name as its id, its help text and its required flag.
pub open spec fn arg_entry(arg: ArgView) -> ArgModel {
    ArgModel {
        id: arg.name,
        short: None,
        long: None,
        help: Some(arg.help),
        required: arg.required,
    }
}

/// The subcommand that the parser is given for `command`: its name, its
/// description, and one argument for each of its arguments, in order.
pub open spec fn subcommand_entry(command: CommandView) -> CommandModel {
    CommandModel {
        name: command.name,
        version: None,
        about: Some(command.description),
        args: Seq::new(command.args.len(), |j: int| arg_entry(command.args[j])),
        subcommands: Seq::empty(),
    }
}

/// The command tree that the parser is given for `cli`: the application's
/// name, version and description, and one subcommand for each of its
/// commands, in order.
pub open spec fn parser_tree(cli: CliView) -> CommandModel {
    CommandModel {
        name: cli.app_name,
        version: Some(cli.version),
        about: Some(cli.about),
        args: Seq::empty(),
        subcommands: Seq::new(cli.commands.len(), |i: int| subcommand_entry(cli.commands[i])),
    }
}

/// Builds the parser's subcommand for `command`.
pub fn build_command(command: &CommandConfig) -> (built: clap::Command)
    ensures
        command_model(built) == subcommand_entry(command@),
{
    let mut built = command_about(command_new(command.name), command.description);
    let mut j: usize = 0;
    assert(subcommand_entry(command@).args.take(0) =~= Seq::empty());
    while j < command.args.len()
        invariant
            j <= command.args.len(),
            command_model(built) == (CommandModel {
                args: subcommand_entry(command@).args.take(j as int),
                ..subcommand_entry(command@)
            }),
        decreases command.args.len() - j,
    {
        let arg = &command.args[j];
        let argument = arg_required(arg_help(arg_new(arg.name), &arg.help), arg.required);
        assert(arg_model(argument) == arg_entry(command@.args[j as int]));
        assert(subcommand_entry(command@).args.take(j as int).push(arg_model(argument))
            =~= subcommand_entry(command@).args.take(j + 1));
        built = command_arg(built, argument);
        j += 1;
    }
    assert(subcommand_entry(command@).args.take(j as int) =~= subcommand_entry(command@).args);
    built
}

/// Builds the parser for `cli_config`.
///
/// The tree has the application's name, version and description and exactly
/// one subcommand for each command, in the order of the commands. Each
/// subcommand has the command's name and description and exactly one argument
/// for each of its arguments, in their order: a positional argument with the
/// same id, help text and required flag.
pub fn build_cli(cli_config: &CliConfig) -> (app: clap::Command)
    ensures
        command_model(app) == parser_tree(cli_config@),
        command_model(app).subcommands.len() == cli_config.commands.len(),
        forall|i: int|
            0 <= i < cli_config.commands.len() ==> {
                let built = #[trigger] command_model(app).subcommands[i];
                let command = cli_config.commands[i];
                &&& built.name == command.name@
                &&& built.about == Some(command.description@)
                &&& built.args.len() == command.args.len()
                &&& forall|j: int|
                    0 <= j < command.args.len() ==> {
                        let arg = #[trigger] built.args[j];
                        &&& arg.id == command.args[j].name@
                        &&& arg.short is None
                        &&& arg.long is None
                        &&& arg.help == Some(command.args[j].help@)
                        &&& arg.required == command.args[j].required
                    }
            },
{
    let named = command_new(cli_config.app_name);
    let versioned = command_version(named, cli_config.version);
    let mut app = command_about(versioned, cli_config.about);
    let mut i: usize = 0;
    assert(parser_tree(cli_config@).subcommands.take(0) =~= Seq::empty());
    while i < cli_config.commands.len()
        invariant
            i <= cli_config.commands.len(),
            command_model(app) == (CommandModel {
                subcommands: parser_tree(cli_config@).subcommands.take(i as int),
                ..parser_tree(cli_config@)
            }),
        decreases cli_config.commands.len() - i,
    {
        let built = build_command(&cli_config.commands[i]);
        assert(parser_tree(cli_config@).subcommands.take(i as int).push(command_model(built))
            =~= parser_tree(cli_config@).subcommands.take(i + 1));
        app = command_subcommand(app, built);
        i += 1;
    }
    assert(parser_tree(cli_config@).subcommands.take(i as int) =~= parser_tree(
        cli_config@,
    ).subcommands);
    app
}

/// What the matches hold for each of `args`, in order.
pub open spec fn looked_up(args: Seq<ArgView>, matches: clap::ArgMatches) -> Seq<
    Option<Seq<char>>,
> {
    Seq::new(args.len(), |j: int| matched_value(matches, args[j].name))
}

/// The values that are present in `found`, in their order.
pub open spec fn present(found: Seq<Option<Seq<char>>>) -> Seq<Seq<char>>
    decreases found.len(),
{
    if found.len() == 0 {
        Seq::empty()
    } else {
        match found.last() {
            Some(value) => present(found.drop_last()).push(value),
            None => present(found.drop_last()),
        }
    }
}

/// What an action is handed: the values that are present in `found`, or
/// nothing at all where none is present.
pub open spec fn supplied(found: Seq<Option<Seq<char>>>) -> Option<Seq<Seq<char>>> {
    if present(found).len() == 0 {
        None
    } else {
        Some(present(found))
    }
}

/// Where every argument has a value, the action is handed exactly these
/// values, each in the place of its argument.
pub proof fn lemma_all_present(found: Seq<Option<Seq<char>>>)
    requires
        forall|j: int| 0 <= j < found.len() ==> (#[trigger] found[j]) is Some,
    ensures
        present(found).len() == found.len(),
        forall|j: int| 0 <= j < found.len() ==> found[j] == Some(#[trigger] present(found)[j]),
        found.len() > 0 ==> supplied(found) == Some(present(found)),
    decreases found.len(),
{
    if found.len() > 0 {
        lemma_all_present(found.drop_last());
    }
}

/// Where no argument has a value, the action is handed nothing at all.
pub proof fn lemma_none_present(found: Seq<Option<Seq<char>>>)
    requires
        forall|j: int| 0 <= j < found.len() ==> (#[trigger] found[j]) is None,
    ensures
        supplied(found) is None,
    decreases found.len(),
{
    if found.len() > 0 {
        lemma_none_present(found.drop_last());
    }
}

/// Looks up the value of each argument of `command` in `matches`, in the
/// order of the arguments.
pub fn lookup_arguments(command: &CommandConfig, matches: &clap::ArgMatches) -> (found: Vec<
    Option<String>,
>)
    ensures
        found.deep_view() == looked_up(command@.args, *matches),
{
    let mut found: Vec<Option<String>> = Vec::new();
    let mut j: usize = 0;
    while j < command.args.len()
        invariant
            j <= command.args.len(),
            found.len() == j,
            forall|k: int|
                0 <= k < j ==> (#[trigger] found[k]).deep_view() == matched_value(
                    *matches,
                    command.args[k].name@,
                ),
        decreases command.args.len() - j,
    {
        found.push(value_of(matches, command.args[j].name));
        j += 1;
    }
    assert(found.deep_view() =~= looked_up(command@.args, *matches));
    found
}

/// Keeps the values that are present in `found`, in their order, and says
/// so where there is none.
pub fn supplied_arguments(found: &Vec<Option<String>>) -> (args: Option<Vec<String>>)
    ensures
        args.deep_view() == supplied(found.deep_view()),
{
    let mut values: Vec<String> = Vec::new();
    let mut j: usize = 0;
    while j < found.len()
        invariant
            j <= found.len(),
            values.deep_view() == present(found.deep_view().take(j as int)),
        decreases found.len() - j,
    {
        assert(found.deep_view().take(j + 1).drop_last() =~= found.deep_view().take(j as int));
        match &found[j] {
            Some(value) => {
                let ghost before = values.deep_view();
                values.push(value.clone());
                assert(values.deep_view() =~= before.push(value@));
            },
            None => {},
        }
        j += 1;
    }
    assert(found.deep_view().take(j as int) =~= found.deep_view());
    if values.len() == 0 {
        None
    } else {
        Some(values)
    }
}

/// What dispatching a parsed command line came to.
pub enum Execution<'c> {
    /// The command line named no subcommand.
    NoSubcommand,
    /// The command line named a subcommand that the application does not
    /// have; no action was run.
    NotRecognized(String),
    /// The command at `index` was named, and `outcome` is what running its
    /// action came to.
    Ran { index: usize, outcome: ActionOutcome<'c> },
}

/// The diagnostic for a subcommand that the application does not have.
pub open spec fn not_recognized_text(name: Seq<char>) -> Seq<char> {
    "Command '"@ + name + "' not recognized."@
}

impl<'c> Execution<'c> {
    /// The diagnostic line that goes with this outcome, if there is one.
    pub fn diagnostic(&self) -> (line: Option<String>)
        ensures
            line.deep_view() == match *self {
                Execution::NoSubcommand => Some("No subcommand was used."@),
                Execution::NotRecognized(name) => Some(not_recognized_text(name@)),
                Execution::Ran { .. } => None,
            },
    {
        match self {
            Execution::NoSubcommand => Some("No subcommand was used.".to_owned()),
            Execution::NotRecognized(name) => {
                let mut line = joined("Command '", name.as_str());
                line.append("' not recognized.");
                Some(line)
            },
            Execution::Ran { .. } => None,
        }
    }
}

/// Dispatches a parsed command line.
///
/// - Where `matches` names no subcommand, nothing is run.
/// - Where it names one that none of the commands is called, nothing is run
///   and the name is reported.
/// - Otherwise the first command of that name is taken. Its arguments are
///   looked up in the subcommand's matches, in their order, and its action is
///   run on the values that are present, or on nothing where none is.
pub fn execute_cli<'c>(cli_config: &'c CliConfig, matches: &clap::ArgMatches) -> (execution:
    Execution<'c>)
    ensures
        match matched_subcommand(*matches) {
            None => execution is NoSubcommand,
            Some((name, sub_matches)) => if none_named(cli_config@.commands, name) {
                execution matches Execution::NotRecognized(reported) && reported@ == name
            } else {
                &&& execution matches Execution::Ran { index, outcome }
                &&& is_first_named(cli_config@.commands, name, index as int)
                &&& exists|args: Option<&[String]>|
                    {
                        &&& #[trigger] cli_config.commands[index as int].performed(args, outcome)
                        &&& args.deep_view() == supplied(
                            looked_up(cli_config@.commands[index as int].args, sub_matches),
                        )
                    }
            },
        },
{
    match subcommand_of(matches) {
        None => Execution::NoSubcommand,
        Some((name, sub_matches)) => match cli_config.find_command(name) {
            None => Execution::NotRecognized(name.to_owned()),
            Some(index) => {
                let command = &cli_config.commands[index];
                assert(cli_config@.commands[index as int] == command@);
                let found = lookup_arguments(command, sub_matches);
                let outcome = match supplied_arguments(&found) {
                    Some(values) => {
                        let args = Some(values.as_slice());
                        let outcome = command.execute_action(args);
                        assert(command.performed(args, outcome));
                        outcome
                    },
                    None => {
                        let outcome = command.execute_action(None);
                        assert(command.performed(None, outcome));
                        outcome
                    },
                };
                Execution::Ran { index, outcome }
            },
        },
    }
}

} // verus!
