//! The collection command: the program that is launched for a component and
//! the arguments it is given.

use vstd::prelude::*;

verus! {

/// The command that collects a component's log, as one would type it in a
/// shell. Its standard output is bound to the component's target file.
pub const COLLECTION_COMMAND: &'static str = "/usr/bin/ssh localhost journalctl -k -f";

/// The words that `shlex::split` makes of `command`, or `None` where it
/// reports the string as erroneous.
pub uninterp spec fn shlex_split(command: Seq<char>) -> Option<Seq<Seq<char>>>;

/// The views of a list of strings.
pub open spec fn words_view(words: Seq<String>) -> Seq<Seq<char>> {
    words.map_values(|w: String| w@)
}

/// The views of an optional list of strings.
pub open spec fn opt_words_view(words: Option<Vec<String>>) -> Option<Seq<Seq<char>>> {
    match words {
        Some(words) => Some(words_view(words@)),
        None => None,
    }
}

/// `shlex::split` cuts a string into words by the rules of a POSIX shell
/// (blanks, quotes, backslashes, comments) and returns `None` where the
/// string ends inside a quotation or after a backslash. The words depend on
/// the string alone; they are named, not spelled out.
pub assume_specification[ shlex::split ](in_str: &str) -> (words: Option<Vec<String>>)
    ensures
        opt_words_view(words) == shlex_split(in_str@),
;

/// A program and the arguments to launch it with.
#[derive(Debug, Clone, PartialEq, Eq)]
pub struct CommandLine {
    pub program: String,
    pub args: Vec<String>,
}

/// What a [`CommandLine`] stands for.
pub struct CommandLineView {
    pub program: Seq<char>,
    pub args: Seq<Seq<char>>,
}

impl View for CommandLine {
    type V = CommandLineView;

    open spec fn view(&self) -> CommandLineView {
        CommandLineView { program: self.program@, args: words_view(self.args@) }
    }
}

/// The view of an optional command line.
pub open spec fn opt_command_view(command: Option<CommandLine>) -> Option<CommandLineView> {
    match command {
        Some(command) => Some(command@),
        None => None,
    }
}

/// The command line that a list of words spells: the first word is the
/// program, the others are its arguments. There is none where the words
/// could not be had or where there is no first word.
pub open spec fn command_line_of(words: Option<Seq<Seq<char>>>) -> Option<CommandLineView> {
    match words {
        Some(words) => if words.len() > 0 {
            Some(CommandLineView { program: words[0], args: words.subrange(1, words.len() as int) })
        } else {
            None
        },
        None => None,
    }
}

/// Turns the words of a command into a command line.
pub fn command_line(words: Option<Vec<String>>) -> (command: Option<CommandLine>)
    ensures
        opt_command_view(command) == command_line_of(opt_words_view(words)),
{
    match words {
        Some(words) => {
            if words.len() > 0 {
                let mut args = words;
                let program = args.remove(0);
                assert(words_view(args@) =~= words_view(words@).subrange(1, words@.len() as int));
                Some(CommandLine { program, args })
            } else {
                None
            }
        },
        None => None,
    }
}

/// Splits a command string into a command line.
pub fn parse_command(command: &str) -> (parsed: Option<CommandLine>)
    ensures
        opt_command_view(parsed) == command_line_of(shlex_split(command@)),
{
    command_line(shlex::split(command))
}

/// Why no collection process could be started.
#[derive(Debug, Clone, Copy, PartialEq, Eq, Structural)]
pub enum SpawnError {
    /// The target file could not be created.
    OutputFile,
    /// The collection command does not spell a program to launch.
    Command,
    /// The program could not be launched.
    Launch,
}

/// The message for a target file that cannot be created.
pub const CANNOT_CREATE_LOG_FILE: &'static str = "Could not create log file";

/// The message for a collection command without a program.
pub const INVALID_COLLECTION_COMMAND: &'static str = "Invalid logging command";

/// The message for a program that cannot be launched.
pub const CANNOT_LAUNCH: &'static str = "Failed to execute logging command";

impl SpawnError {
    /// The message that a request is answered with after this failure.
    pub open spec fn spec_message(self) -> Seq<char> {
        match self {
            SpawnError::OutputFile => CANNOT_CREATE_LOG_FILE@,
            SpawnError::Command => INVALID_COLLECTION_COMMAND@,
            SpawnError::Launch => CANNOT_LAUNCH@,
        }
    }

    /// The message that a request is answered with after this failure.
    pub fn message(&self) -> (m: String)
        ensures
            m@ == self.spec_message(),
    {
        match self {
            SpawnError::OutputFile => CANNOT_CREATE_LOG_FILE.to_owned(),
            SpawnError::Command => INVALID_COLLECTION_COMMAND.to_owned(),
            SpawnError::Launch => CANNOT_LAUNCH.to_owned(),
        }
    }
}

/// What the caller is asked to launch: `command`, with its standard output
/// bound to a new file at `log_path`, on behalf of `component`.
#[derive(Debug, Clone, PartialEq, Eq)]
pub struct SpawnOrder {
    pub component: String,
    pub log_path: String,
    pub command: CommandLine,
}

/// What a [`SpawnOrder`] stands for.
pub struct SpawnOrderView {
    pub component: Seq<char>,
    pub log_path: Seq<char>,
    pub command: CommandLineView,
}

impl View for SpawnOrder {
    type V = SpawnOrderView;

    open spec fn view(&self) -> SpawnOrderView {
        SpawnOrderView {
            component: self.component@,
            log_path: self.log_path@,
            command: self.command@,
        }
    }
}

/// The view of a planned launch.
pub open spec fn plan_view(plan: Result<SpawnOrder, SpawnError>) -> Result<
    SpawnOrderView,
    SpawnError,
> {
    match plan {
        Ok(order) => Ok(order@),
        Err(e) => Err(e),
    }
}

/// The launch that is planned for `component` and `log_path` with the given
/// command line. An empty path names no file, so nothing is launched for it;
/// nothing is launched without a command line either.
pub open spec fn launch_plan(
    component: Seq<char>,
    log_path: Seq<char>,
    command: Option<CommandLineView>,
) -> Result<SpawnOrderView, SpawnError> {
    if log_path.len() == 0 {
        Err(SpawnError::OutputFile)
    } else {
        match command {
            Some(command) => Ok(SpawnOrderView { component, log_path, command }),
            None => Err(SpawnError::Command),
        }
    }
}

/// Plans the launch of `command` for `component`, writing to `log_path`.
pub fn plan_launch(component: &String, log_path: &String, command: Option<CommandLine>) -> (plan:
    Result<SpawnOrder, SpawnError>)
    ensures
        plan_view(plan) == launch_plan(component@, log_path@, opt_command_view(command)),
{
    if log_path.as_str().is_empty() {
        Err(SpawnError::OutputFile)
    } else {
        match command {
            Some(command) => Ok(
                SpawnOrder { component: component.clone(), log_path: log_path.clone(), command },
            ),
            None => Err(SpawnError::Command),
        }
    }
}

/// Plans the launch of [`COLLECTION_COMMAND`] for `component`, writing to
/// `log_path`. The caller creates the file, launches the program and reports
/// back how that went.
pub fn run_command(component: &String, log_path: &String) -> (plan: Result<SpawnOrder, SpawnError>)
    ensures
        plan_view(plan) == launch_plan(
            component@,
            log_path@,
            command_line_of(shlex_split(COLLECTION_COMMAND@)),
        ),
{
    plan_launch(component, log_path, parse_command(COLLECTION_COMMAND))
}

} // verus!
