//! The description of an application: its name, its commands, their
//! arguments and their actions.

use crate::action::{
    SharedStandard, SharedUi, SharedUiReturn, StandardCallback, UiCallback, UiReturnCallback,
};
use crate::text::{joined, debug_option, debug_option_text};
use crate::wrappers::{
    input_form, input_form_view, item_list, item_list_view, loader, loader_view, menu_list,
    menu_list_view, stopwatch, stopwatch_view, table, table_view, text_area, text_area_view,
    timer, timer_view, viewport, viewport_view, Item, Session, SessionView,
};
use std::sync::Arc;
use vstd::prelude::*;

verus! {

/// One argument of a command: a single string token, required or optional.
pub struct ArgConfig {
    pub name: &'static str,
    pub help: String,
    pub required: bool,
}

pub struct ArgView {
    pub name: Seq<char>,
    pub help: Seq<char>,
    pub required: bool,
}

impl DeepView for ArgConfig {
    type V = ArgView;

    open spec fn deep_view(&self) -> ArgView {
        ArgView { name: self.name@, help: self.help@, required: self.required }
    }
}

impl View for ArgConfig {
    type V = ArgView;

    open spec fn view(&self) -> ArgView {
        self.deep_view()
    }
}

impl Clone for ArgConfig {
    fn clone(&self) -> (copy: Self)
        ensures
            copy@ == self@,
    {
        ArgConfig { name: self.name, help: self.help.clone(), required: self.required }
    }
}

/// What a fire-and-forget screen command does: it runs a callback, or it
/// shows a widget.
pub enum UiAction<'a> {
    Callback(Box<dyn UiCallback + 'a>),
    Widget(Session),
}

/// What a screen command with a result does: it runs a callback, or it shows
/// a widget that the user answers.
pub enum UiReturnAction<'a> {
    Callback(Box<dyn UiReturnCallback + 'a>),
    Widget(Session),
}

/// The action of a command, by its calling convention.
pub enum CommandType<'a> {
    /// Takes the collected argument values; returns nothing.
    Standard(Box<dyn StandardCallback + 'a>),
    /// Takes nothing; returns nothing.
    UI(UiAction<'a>),
    /// Takes nothing; returns an optional string, which is then printed.
    UIWithReturn(UiReturnAction<'a>),
}

/// One subcommand: its name, its description, its arguments in order, and
/// its action.
pub struct CommandConfig<'a> {
    pub name: &'static str,
    pub description: &'static str,
    pub args: Vec<ArgConfig>,
    pub command_type: CommandType<'a>,
}

/// A command without its action: what a parser is told about it.
pub struct CommandView {
    pub name: Seq<char>,
    pub description: Seq<char>,
    pub args: Seq<ArgView>,
}

impl<'a> DeepView for CommandConfig<'a> {
    type V = CommandView;

    open spec fn deep_view(&self) -> CommandView {
        CommandView {
            name: self.name@,
            description: self.description@,
            args: self.args.deep_view(),
        }
    }
}

impl<'a> View for CommandConfig<'a> {
    type V = CommandView;

    open spec fn view(&self) -> CommandView {
        self.deep_view()
    }
}

/// An application: its name, version and description, and its commands in
/// the order in which they were added.
pub struct CliConfig<'a> {
    pub app_name: &'static str,
    pub version: &'static str,
    pub about: &'static str,
    pub commands: Vec<CommandConfig<'a>>,
}

/// An application without its actions: what a parser is told about it.
pub struct CliView {
    pub app_name: Seq<char>,
    pub version: Seq<char>,
    pub about: Seq<char>,
    pub commands: Seq<CommandView>,
}

impl<'a> View for CliConfig<'a> {
    type V = CliView;

    open spec fn view(&self) -> CliView {
        CliView {
            app_name: self.app_name@,
            version: self.version@,
            about: self.about@,
            commands: self.commands.deep_view(),
        }
    }
}

/// What running the action of a command came to.
pub enum ActionOutcome<'c> {
    /// A standard command was given no argument values: its action was not run.
    Skipped,
    /// The action ran and leaves nothing to print.
    Completed,
    /// The action ran and handed this value back; the caller prints it, as
    /// [`result_line`] renders it.
    Returned(Option<String>),
    /// The action ran and failed.
    Failed(std::io::Error),
    /// The caller is to show this widget.
    Show(&'c Session),
    /// The caller is to show this widget and then to print what it hands
    /// back, as [`result_line`] renders it.
    Ask(&'c Session),
}

/// `i` is the position of the first of `commands` that is called `name`.
pub open spec fn is_first_named(commands: Seq<CommandView>, name: Seq<char>, i: int) -> bool {
    &&& 0 <= i < commands.len()
    &&& commands[i].name == name
    &&& forall|j: int| 0 <= j < i ==> (#[trigger] commands[j]).name != name
}

/// None of `commands` is called `name`.
pub open spec fn none_named(commands: Seq<CommandView>, name: Seq<char>) -> bool {
    forall|j: int| 0 <= j < commands.len() ==> (#[trigger] commands[j]).name != name
}

/// The line that shows the value which a command handed back.
pub open spec fn result_text(value: Option<Seq<char>>) -> Seq<char> {
    "Result: "@ + debug_option_text(value)
}

/// The line that shows the value which a command handed back: `Result: `
/// and the value in its debug rendering, so that no value reads `None`.
pub fn result_line(value: &Option<String>) -> (line: String)
    ensures
        line@ == result_text(value.deep_view()),
{
    let shown = debug_option(value);
    joined("Result: ", shown.as_str())
}

/// `command` is called `name`, is described by `description` and has no
/// arguments.
pub open spec fn is_bare(command: CommandConfig<'_>, name: Seq<char>, description: Seq<char>) -> bool {
    &&& command.name@ == name
    &&& command.description@ == description
    &&& command.args@ == Seq::<ArgConfig>::empty()
}

/// `command` is a bare command that shows the widget `session` and hands
/// nothing back.
pub open spec fn shows(
    command: CommandConfig<'_>,
    name: Seq<char>,
    description: Seq<char>,
    session: SessionView,
) -> bool {
    &&& is_bare(command, name, description)
    &&& command.command_type matches CommandType::UI(UiAction::Widget(shown))
    &&& shown@ == session
}

/// `command` is a bare command that shows the widget `session` and hands
/// back what the user answered.
pub open spec fn asks(
    command: CommandConfig<'_>,
    name: Seq<char>,
    description: Seq<char>,
    session: SessionView,
) -> bool {
    &&& is_bare(command, name, description)
    &&& command.command_type matches CommandType::UIWithReturn(UiReturnAction::Widget(shown))
    &&& shown@ == session
}

impl<'a> CommandConfig<'a> {
    /// A standard command without arguments whose action is `action`.
    pub fn new_standard<F: Fn(&[String]) + Send + Sync + 'a>(
        name: &'static str,
        description: &'static str,
        action: Arc<F>,
    ) -> (command: Self)
        requires
            forall|args: &[String]| call_requires(*action, (args,)),
        ensures
            is_bare(command, name@, description@),
            command.command_type matches CommandType::Standard(callback) && forall|args: &[String]|
                callback.completed(args) <==> call_ensures(*action, (args,), ()),
    {
        let command = CommandConfig {
            name,
            description,
            args: Vec::new(),
            command_type: CommandType::Standard(Box::new(SharedStandard::new(action))),
        };
        command
    }

    /// A fire-and-forget screen command without arguments whose action is
    /// `action`.
    pub fn new_ui<F: Fn() -> Result<(), std::io::Error> + Send + Sync + 'a>(
        name: &'static str,
        description: &'static str,
        action: Arc<F>,
    ) -> (command: Self)
        requires
            call_requires(*action, ()),
        ensures
            is_bare(command, name@, description@),
            command.command_type matches CommandType::UI(UiAction::Callback(callback))
                && forall|result: Result<(), std::io::Error>|
                callback.yields(result) <==> call_ensures(*action, (), result),
    {
        let command = CommandConfig {
            name,
            description,
            args: Vec::new(),
            command_type: CommandType::UI(UiAction::Callback(Box::new(SharedUi::new(action)))),
        };
        command
    }

    /// A screen command without arguments whose action is `action` and hands
    /// a value back.
    pub fn new_ui_with_return<
        F: Fn() -> Result<Option<String>, std::io::Error> + Send + Sync + 'a,
    >(name: &'static str, description: &'static str, action: Arc<F>) -> (command: Self)
        requires
            call_requires(*action, ()),
        ensures
            is_bare(command, name@, description@),
            command.command_type matches CommandType::UIWithReturn(
                UiReturnAction::Callback(callback),
            ) && forall|result: Result<Option<String>, std::io::Error>|
                callback.yields(result) <==> call_ensures(*action, (), result),
    {
        let command = CommandConfig {
            name,
            description,
            args: Vec::new(),
            command_type: CommandType::UIWithReturn(
                UiReturnAction::Callback(Box::new(SharedUiReturn::new(action))),
            ),
        };
        command
    }

    /// A fire-and-forget screen command without arguments that shows the
    /// widget of `session`.
    pub fn new_widget(name: &'static str, description: &'static str, session: Session) -> (command:
        Self)
        ensures
            shows(command, name@, description@, session@),
            command.command_type == CommandType::UI(UiAction::Widget(session)),
    {
        let command = CommandConfig {
            name,
            description,
            args: Vec::new(),
            command_type: CommandType::UI(UiAction::Widget(session)),
        };
        command
    }

    /// A screen command without arguments that shows the widget of `session`
    /// and hands back what the user answered.
    pub fn new_widget_with_return(
        name: &'static str,
        description: &'static str,
        session: Session,
    ) -> (command: Self)
        ensures
            asks(command, name@, description@, session@),
            command.command_type == CommandType::UIWithReturn(UiReturnAction::Widget(session)),
    {
        let command = CommandConfig {
            name,
            description,
            args: Vec::new(),
            command_type: CommandType::UIWithReturn(UiReturnAction::Widget(session)),
        };
        command
    }

    /// Adds `arg` behind the arguments that the command has.
    pub fn add_arg(&mut self, arg: ArgConfig) -> (command: &mut Self)
        ensures
            command.name == old(self).name,
            command.description == old(self).description,
            command.command_type == old(self).command_type,
            command.args@ == old(self).args@.push(arg),
            *final(self) == *final(command),
    {
        self.args.push(arg);
        self
    }

    /// `outcome` is what running this command's action on `args` comes to:
    /// - a standard command without argument values is skipped; with them,
    ///   its callback has completed on exactly these values;
    /// - a callback of a screen command has returned what the outcome holds;
    /// - a widget is handed to the caller, to be shown.
    pub open spec fn performed(&self, args: Option<&[String]>, outcome: ActionOutcome<'_>) -> bool {
        match self.command_type {
            CommandType::Standard(action) => match args {
                Some(values) => outcome is Completed && action.completed(values),
                None => outcome is Skipped,
            },
            CommandType::UI(UiAction::Callback(action)) => match outcome {
                ActionOutcome::Completed => action.yields(Ok(())),
                ActionOutcome::Failed(error) => action.yields(Err(error)),
                _ => false,
            },
            CommandType::UI(UiAction::Widget(session)) => {
                outcome matches ActionOutcome::Show(shown) && *shown == session
            },
            CommandType::UIWithReturn(UiReturnAction::Callback(action)) => match outcome {
                ActionOutcome::Returned(value) => action.yields(Ok(value)),
                ActionOutcome::Failed(error) => action.yields(Err(error)),
                _ => false,
            },
            CommandType::UIWithReturn(UiReturnAction::Widget(session)) => {
                outcome matches ActionOutcome::Ask(shown) && *shown == session
            },
        }
    }

    /// Runs the action of this command.
    ///
    /// A standard action is called with `args` where they are present and
    /// not at all where they are absent. The two kinds of screen action
    /// ignore `args`: a callback is called, a widget is handed to the caller.
    pub fn execute_action(&self, args: Option<&[String]>) -> (outcome: ActionOutcome<'_>)
        ensures
            self.performed(args, outcome),
    {
        match &self.command_type {
            CommandType::Standard(action) => match args {
                Some(values) => {
                    action.run(values);
                    ActionOutcome::Completed
                },
                None => ActionOutcome::Skipped,
            },
            CommandType::UI(UiAction::Callback(action)) => match action.run() {
                Ok(done) => {
                    assert(done == ());
                    ActionOutcome::Completed
                },
                Err(error) => ActionOutcome::Failed(error),
            },
            CommandType::UI(UiAction::Widget(session)) => ActionOutcome::Show(session),
            CommandType::UIWithReturn(UiReturnAction::Callback(action)) => match action.run() {
                Ok(value) => ActionOutcome::Returned(value),
                Err(error) => ActionOutcome::Failed(error),
            },
            CommandType::UIWithReturn(UiReturnAction::Widget(session)) => ActionOutcome::Ask(
                session,
            ),
        }
    }
}

/// Adding a command and then asking for the commands gives the commands
/// that were there before, each in its place, and behind them the command
/// that was added, with its name, its description and its arguments.
pub proof fn lemma_add_command_round_trip<'a>(
    before: CliConfig<'a>,
    command: CommandConfig<'a>,
    after: CliConfig<'a>,
    listed: &[CommandConfig<'a>],
)
    requires
        after.extends(before, command),
        listed@ == after.commands@,
    ensures
        listed@.len() == before.commands@.len() + 1,
        listed@[before.commands@.len() as int] == command,
        listed@[before.commands@.len() as int]@ == command@,
        forall|i: int| 0 <= i < before.commands@.len() ==> listed@[i] == before.commands@[i],
        after@.commands == before@.commands.push(command@),
{
    assert(after@.commands =~= before@.commands.push(command@));
}

impl<'a> CliConfig<'a> {
    /// `self` is `before` with `command` added behind its commands.
    pub open spec fn extends(&self, before: CliConfig<'a>, command: CommandConfig<'a>) -> bool {
        &&& self.app_name == before.app_name
        &&& self.version == before.version
        &&& self.about == before.about
        &&& self.commands@ == before.commands@.push(command)
    }

    /// `self` is `before` with one more command behind its commands.
    pub open spec fn grown(&self, before: CliConfig<'a>) -> bool {
        &&& self.commands@.len() == before.commands@.len() + 1
        &&& self.extends(before, self.commands@.last())
    }

    /// An application without commands.
    pub fn new(app_name: &'static str, version: &'static str, about: &'static str) -> (cli: Self)
        ensures
            cli@ == (CliView {
                app_name: app_name@,
                version: version@,
                about: about@,
                commands: Seq::empty(),
            }),
            cli.commands@ == Seq::<CommandConfig<'a>>::empty(),
    {
        let cli = CliConfig { app_name, version, about, commands: Vec::new() };
        assert(cli@.commands =~= Seq::empty());
        cli
    }

    /// Adds `command` behind the commands that the application has.
    pub fn add_command(&mut self, command: CommandConfig<'a>) -> (cli: &mut Self)
        ensures
            cli.extends(*old(self), command),
            *final(self) == *final(cli),
    {
        self.commands.push(command);
        self
    }

    /// Adds a command that asks for one line of text in an input form.
    pub fn add_input(
        &mut self,
        name: &'static str,
        description: &'static str,
        placeholder: &'static str,
        initial_text: &'static str,
        label: &'static str,
    )
        ensures
            final(self).grown(*old(self)),
            asks(
                final(self).commands@.last(),
                name@,
                description@,
                input_form_view(placeholder@, initial_text@, label@),
            ),
    {
        let session = input_form(placeholder, initial_text, label);
        self.add_command(CommandConfig::new_widget_with_return(name, description, session));
    }

    /// Adds a command that shows a text area.
    pub fn add_text_area(
        &mut self,
        name: &'static str,
        description: &'static str,
        label: &str,
        visible_lines: usize,
    )
        ensures
            final(self).grown(*old(self)),
            shows(
                final(self).commands@.last(),
                name@,
                description@,
                text_area_view(label@, visible_lines),
            ),
    {
        let session = text_area(label, visible_lines);
        self.add_command(CommandConfig::new_widget(name, description, session));
    }

    /// Adds a command that shows a loader.
    pub fn add_loader(
        &mut self,
        name: &'static str,
        description: &'static str,
        text: &str,
        style: &str,
    )
        ensures
            final(self).grown(*old(self)),
            shows(final(self).commands@.last(), name@, description@, loader_view(text@, style@)),
    {
        let session = loader(text.to_owned(), style.to_owned());
        self.add_command(CommandConfig::new_widget(name, description, session));
    }

    /// Adds a command that shows a table.
    pub fn add_table(
        &mut self,
        name: &'static str,
        description: &'static str,
        headers: Vec<&'static str>,
        rows: Vec<Vec<&'static str>>,
    )
        ensures
            final(self).grown(*old(self)),
            shows(
                final(self).commands@.last(),
                name@,
                description@,
                table_view(headers.deep_view(), rows.deep_view()),
            ),
    {
        let session = table(headers, rows);
        self.add_command(CommandConfig::new_widget(name, description, session));
    }

    /// Adds a command that shows a countdown.
    pub fn add_timer(&mut self, name: &'static str, description: &'static str, secs: u64, nanos: u32)
        ensures
            final(self).grown(*old(self)),
            shows(final(self).commands@.last(), name@, description@, timer_view(secs, nanos)),
    {
        let session = timer(secs, nanos);
        self.add_command(CommandConfig::new_widget(name, description, session));
    }

    /// Adds a command that shows a stopwatch.
    pub fn add_stopwatch(&mut self, name: &'static str, description: &'static str)
        ensures
            final(self).grown(*old(self)),
            shows(final(self).commands@.last(), name@, description@, stopwatch_view()),
    {
        let session = stopwatch();
        self.add_command(CommandConfig::new_widget(name, description, session));
    }

    /// Adds a command that shows the text file at `file_path` in a viewport.
    pub fn add_viewport(&mut self, name: &'static str, description: &'static str, file_path: String)
        ensures
            final(self).grown(*old(self)),
            shows(final(self).commands@.last(), name@, description@, viewport_view(file_path@)),
    {
        let session = viewport(file_path);
        self.add_command(CommandConfig::new_widget(name, description, session));
    }

    /// Adds a command that lets the user choose from a list of items.
    pub fn add_item_list(
        &mut self,
        name: &'static str,
        description: &'static str,
        list: Vec<Item>,
        list_title: String,
    )
        ensures
            final(self).grown(*old(self)),
            asks(
                final(self).commands@.last(),
                name@,
                description@,
                item_list_view(list.deep_view(), list_title@),
            ),
    {
        let session = item_list(list, list_title);
        self.add_command(CommandConfig::new_widget_with_return(name, description, session));
    }

    /// Adds a command that lets the user choose from a menu.
    pub fn add_menu_list(
        &mut self,
        name: &'static str,
        description: &'static str,
        list_title: String,
        list_subtitle: String,
        list: Vec<String>,
    )
        ensures
            final(self).grown(*old(self)),
            asks(
                final(self).commands@.last(),
                name@,
                description@,
                menu_list_view(list.deep_view(), list_title@, list_subtitle@),
            ),
    {
        let session = menu_list(list, list_title, list_subtitle);
        self.add_command(CommandConfig::new_widget_with_return(name, description, session));
    }

    /// The commands, in the order in which they were added.
    pub fn commands(&self) -> (commands: &[CommandConfig<'a>])
        ensures
            commands@ == self.commands@,
    {
        self.commands.as_slice()
    }

    /// The position of the first command called `name`, if there is one.
    pub fn find_command(&self, name: &str) -> (found: Option<usize>)
        ensures
            match found {
                Some(i) => is_first_named(self@.commands, name@, i as int),
                None => none_named(self@.commands, name@),
            },
    {
        let mut i: usize = 0;
        while i < self.commands.len()
            invariant
                i <= self.commands.len(),
                forall|j: int| 0 <= j < i ==> (#[trigger] self@.commands[j]).name != name@,
            decreases self.commands.len() - i,
        {
            assert(self@.commands[i as int] == self.commands[i as int]@);
            if *self.commands[i].name == *name {
                return Some(i);
            }
            i += 1;
        }
        None
    }
}

} // verus!
