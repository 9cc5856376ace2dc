//! The commands of the command line and how a list of arguments names one.
use crate::format_utils::same_text;
use vstd::prelude::*;

verus! {

pub const SHOW_COMMAND: &'static str = "show";

pub const ALL_COMMAND: &'static str = "all";

pub const TIME_COMMAND: &'static str = "time";

pub const WATCH_COMMAND: &'static str = "watch";

pub const DELETE_COMMAND: &'static str = "delete";

pub const STOP_COMMAND: &'static str = "stop";

pub const RESUME_COMMAND: &'static str = "resume";

/// The title that a command acts on.
#[derive(Clone, Debug)]
pub struct Title {
    /// Name of time stamp or stop watch.
    pub name: String,
}

/// What a new stop watch is made of.
#[derive(Clone, Debug)]
pub struct StopWatchCliArgs {
    /// Name of stop watch.
    pub name: String,
    /// Count down until the watch is done.
    pub left_time: String,
}

/// The subcommands of the command line.
#[derive(Clone, Debug)]
pub enum AppCommand {
    /// Creates a time stamp which starts from current time.
    Time(Title),
    /// Creates a stop watch which starts from current time and given count down.
    Watch(StopWatchCliArgs),
    /// Shows the time stamp or stop watch of a given title.
    Show(Title),
    /// Deletes the time stamp or stop watch with the given title.
    Delete(Title),
    /// Stops a time stamp or stop watch.
    Stop(Title),
    /// Continues a stopped time stamp or stop watch.
    Resume(Title),
    /// Lists all time stamps and stop watches.
    All,
}

/// A command named by a list of arguments.
#[derive(Clone, Debug)]
pub enum Command {
    ShowAll,
    ShowItem(String),
    AddTimeStamp(String),
    AddStopWatch(String, String),
    Delete(String),
    Stop(String),
    Resume(String),
}

/// Why a list of arguments names no command.
#[derive(Clone, Debug)]
pub enum ErrorCommand {
    /// More arguments than the command takes; the number of arguments.
    TooManyArgs(u32),
    /// The named command needs more arguments.
    MissingArgument(String),
    /// No command has this name.
    UnknownCommand(String),
}

/// Commands that take exactly one title.
pub open spec fn takes_title(name: Seq<char>) -> bool {
    name == TIME_COMMAND@ || name == DELETE_COMMAND@ || name == STOP_COMMAND@ || name == RESUME_COMMAND@
}

/// Names of commands.
pub open spec fn is_command(name: Seq<char>) -> bool {
    takes_title(name) || name == SHOW_COMMAND@ || name == ALL_COMMAND@ || name == WATCH_COMMAND@
}

/// Fewest arguments, the name included, that the command takes.
pub open spec fn min_args(name: Seq<char>) -> nat {
    if takes_title(name) {
        2
    } else if name == WATCH_COMMAND@ {
        3
    } else {
        1
    }
}

/// Most arguments, the name included, that the command takes.
pub open spec fn max_args(name: Seq<char>) -> nat {
    if takes_title(name) || name == SHOW_COMMAND@ {
        2
    } else if name == WATCH_COMMAND@ {
        3
    } else {
        1
    }
}

/// `c` is the command that the arguments `args` (name first) ask for.
pub open spec fn names_command(c: Command, args: Seq<Seq<char>>) -> bool {
    let name = args[0];
    match c {
        Command::ShowAll => name == ALL_COMMAND@ || (name == SHOW_COMMAND@ && args.len() == 1),
        Command::ShowItem(t) => name == SHOW_COMMAND@ && args.len() == 2 && t@ == args[1],
        Command::AddTimeStamp(t) => name == TIME_COMMAND@ && t@ == args[1],
        Command::AddStopWatch(t, left) => name == WATCH_COMMAND@ && t@ == args[1] && left@ == args[2],
        Command::Delete(t) => name == DELETE_COMMAND@ && t@ == args[1],
        Command::Stop(t) => name == STOP_COMMAND@ && t@ == args[1],
        Command::Resume(t) => name == RESUME_COMMAND@ && t@ == args[1],
    }
}

/// The views of a list of arguments.
pub open spec fn args_view(args: Seq<String>) -> Seq<Seq<char>> {
    Seq::new(args.len(), |i: int| args[i]@)
}

/// The command that a list of arguments names, the command's name first. No
/// arguments show everything; `show` without a title too.
pub fn figure_command_from_args(args: Vec<String>) -> (r: Result<Command, ErrorCommand>)
    requires
        args@.len() <= u32::MAX,
    ensures
        args@.len() == 0 ==> r matches Ok(Command::ShowAll),
        args@.len() > 0 && !is_command(args@[0]@)
            ==> (r matches Err(ErrorCommand::UnknownCommand(n)) && n@ == args@[0]@),
        args@.len() > 0 && is_command(args@[0]@) && args@.len() > max_args(args@[0]@)
            ==> (r matches Err(ErrorCommand::TooManyArgs(n)) && n == args@.len()),
        args@.len() > 0 && is_command(args@[0]@) && args@.len() < min_args(args@[0]@)
            ==> (r matches Err(ErrorCommand::MissingArgument(n)) && n@ == args@[0]@),
        args@.len() > 0 && is_command(args@[0]@) && min_args(args@[0]@) <= args@.len()
            && args@.len() <= max_args(args@[0]@)
            ==> (r matches Ok(c) && names_command(c, args_view(args@))),
{
    proof {
        reveal_strlit("show");
        reveal_strlit("all");
        reveal_strlit("time");
        reveal_strlit("watch");
        reveal_strlit("delete");
        reveal_strlit("stop");
        reveal_strlit("resume");
        assert(SHOW_COMMAND@[0] == 's' && SHOW_COMMAND@[1] == 'h');
        assert(STOP_COMMAND@[0] == 's' && STOP_COMMAND@[1] == 't');
        assert(ALL_COMMAND@[0] == 'a');
        assert(TIME_COMMAND@[0] == 't');
        assert(WATCH_COMMAND@[0] == 'w');
        assert(DELETE_COMMAND@[0] == 'd');
        assert(RESUME_COMMAND@[0] == 'r');
    }
    let count = args.len();
    if count == 0 {
        return Ok(Command::ShowAll);
    }
    let name = args[0].as_str();
    let (fewest, most): (usize, usize) = if same_text(name, SHOW_COMMAND) {
        (1, 2)
    } else if same_text(name, ALL_COMMAND) {
        (1, 1)
    } else if same_text(name, WATCH_COMMAND) {
        (3, 3)
    } else if same_text(name, TIME_COMMAND) || same_text(name, DELETE_COMMAND)
        || same_text(name, STOP_COMMAND) || same_text(name, RESUME_COMMAND) {
        (2, 2)
    } else {
        return Err(ErrorCommand::UnknownCommand(args[0].clone()));
    };
    if count > most {
        return Err(ErrorCommand::TooManyArgs(count as u32));
    }
    if count < fewest {
        return Err(ErrorCommand::MissingArgument(args[0].clone()));
    }
    assert(args_view(args@)[0] == args@[0]@);
    if same_text(name, SHOW_COMMAND) {
        if count == 1 {
            Ok(Command::ShowAll)
        } else {
            assert(args_view(args@)[1] == args@[1]@);
            Ok(Command::ShowItem(args[1].clone()))
        }
    } else if same_text(name, ALL_COMMAND) {
        Ok(Command::ShowAll)
    } else {
        assert(args_view(args@)[1] == args@[1]@);
        let title = args[1].clone();
        if same_text(name, WATCH_COMMAND) {
            assert(args_view(args@)[2] == args@[2]@);
            Ok(Command::AddStopWatch(title, args[2].clone()))
        } else if same_text(name, TIME_COMMAND) {
            Ok(Command::AddTimeStamp(title))
        } else if same_text(name, DELETE_COMMAND) {
            Ok(Command::Delete(title))
        } else if same_text(name, STOP_COMMAND) {
            Ok(Command::Stop(title))
        } else {
            Ok(Command::Resume(title))
        }
    }
}

} // verus!
