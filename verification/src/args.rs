//! The command line: which options it may hold and what they select.

use crate::level::{selected_level, spec_selected_level, LevelFilter};
use vstd::prelude::*;
use vstd::string::StringExecFns;

verus! {

/// The socket of the API server, where the command line names no other.
pub const DEFAULT_API_SOCKET: &'static str = "/run/api.sock";

/// The option that selects the log level.
pub const LOG_LEVEL_FLAG: &'static str = "--log-level";

/// The option that names the socket of the API server.
pub const SOCKET_PATH_FLAG: &'static str = "--socket-path";

/// The name under which the program is reported where the command line is empty.
pub const DEFAULT_PROGRAM_NAME: &'static str = "program";

/// The exit code of a run whose command line was refused.
pub const EXIT_USAGE: i32 = 2;

/// The usage message behind the program's name, up to the default socket path.
pub const USAGE_OPTIONS: &'static str =
    "\n            [ --socket-path PATH ]\n            [ --log-level trace|debug|info|warn|error ]\n\n    Socket path defaults to ";

/// What the command line selected.
#[derive(Debug, PartialEq, Eq)]
pub struct Args {
    pub log_level: LevelFilter,
    pub socket_path: String,
}

/// The selection of a command line as a mathematical value.
pub ghost struct ArgsView {
    pub log_level: LevelFilter,
    pub socket_path: Seq<char>,
}

impl View for Args {
    type V = ArgsView;

    open spec fn view(&self) -> ArgsView {
        ArgsView { log_level: self.log_level, socket_path: self.socket_path@ }
    }
}

/// Why a command line was refused.
#[derive(Debug, PartialEq, Eq)]
pub enum ArgsError {
    /// The log level option stands last, without its value.
    MissingLogLevel,
    /// The value of the log level option names no level.
    InvalidLogLevel { name: String },
    /// The socket path option stands last, without its value.
    MissingSocketPath,
    /// The command line holds something that is no option.
    UnknownArgument,
}

/// The refusal of a command line as a mathematical value.
pub ghost enum ArgsErrorView {
    MissingLogLevel,
    InvalidLogLevel { name: Seq<char> },
    MissingSocketPath,
    UnknownArgument,
}

impl View for ArgsError {
    type V = ArgsErrorView;

    open spec fn view(&self) -> ArgsErrorView {
        match self {
            ArgsError::MissingLogLevel => ArgsErrorView::MissingLogLevel,
            ArgsError::InvalidLogLevel { name } => ArgsErrorView::InvalidLogLevel { name: name@ },
            ArgsError::MissingSocketPath => ArgsErrorView::MissingSocketPath,
            ArgsError::UnknownArgument => ArgsErrorView::UnknownArgument,
        }
    }
}

/// What a run of options selects; `None` where it leaves a choice open.
pub ghost struct Selection {
    pub log_level: Option<LevelFilter>,
    pub socket_path: Option<Seq<char>>,
}

impl Selection {
    /// The selection of `self`, then what `later` selects over it.
    pub open spec fn overridden_by(self, later: Selection) -> Selection {
        Selection {
            log_level: if later.log_level is Some {
                later.log_level
            } else {
                self.log_level
            },
            socket_path: if later.socket_path is Some {
                later.socket_path
            } else {
                self.socket_path
            },
        }
    }

    /// The selection with the defaults in the places left open.
    pub open spec fn settle(self) -> ArgsView {
        ArgsView {
            log_level: match self.log_level {
                Some(level) => level,
                None => LevelFilter::Info,
            },
            socket_path: match self.socket_path {
                Some(path) => path,
                None => DEFAULT_API_SOCKET@,
            },
        }
    }
}

/// What a run of options selects.
///
/// An option is a flag and the value behind it; the value behind the log level
/// flag is one of `trace`, `debug`, `info`, `warn` and `error`. The leftmost
/// fault decides the refusal; where an option stands twice, the later value
/// holds.
pub open spec fn spec_options(options: Seq<Seq<char>>) -> Result<Selection, ArgsErrorView>
    decreases options.len(),
{
    if options.len() == 0 {
        Ok(Selection { log_level: None, socket_path: None })
    } else if options[0] == LOG_LEVEL_FLAG@ {
        if options.len() < 2 {
            Err(ArgsErrorView::MissingLogLevel)
        } else {
            match spec_selected_level(options[1]) {
                None => Err(ArgsErrorView::InvalidLogLevel { name: options[1] }),
                Some(level) => match spec_options(options.skip(2)) {
                    Err(error) => Err(error),
                    Ok(later) => Ok(
                        Selection { log_level: Some(level), socket_path: None }.overridden_by(later),
                    ),
                },
            }
        }
    } else if options[0] == SOCKET_PATH_FLAG@ {
        if options.len() < 2 {
            Err(ArgsErrorView::MissingSocketPath)
        } else {
            match spec_options(options.skip(2)) {
                Err(error) => Err(error),
                Ok(later) => Ok(
                    Selection { log_level: None, socket_path: Some(options[1]) }.overridden_by(later),
                ),
            }
        }
    } else {
        Err(ArgsErrorView::UnknownArgument)
    }
}

/// The options of a command line: all but the program's name.
pub open spec fn spec_options_of(args: Seq<Seq<char>>) -> Seq<Seq<char>> {
    if args.len() == 0 {
        args
    } else {
        args.skip(1)
    }
}

/// What a command line selects, with the defaults where it is silent.
pub open spec fn spec_parse_args(args: Seq<Seq<char>>) -> Result<ArgsView, ArgsErrorView> {
    match spec_options(spec_options_of(args)) {
        Ok(selection) => Ok(selection.settle()),
        Err(error) => Err(error),
    }
}

/// What the options from `at` on add to a selection made so far.
spec fn spec_rest(args: Seq<Seq<char>>, at: int, so_far: Selection) -> Result<
    Selection,
    ArgsErrorView,
> {
    match spec_options(args.skip(at)) {
        Ok(later) => Ok(so_far.overridden_by(later)),
        Err(error) => Err(error),
    }
}

/// Reads the command line: the program's name, then the options. No command
/// line switches the log off.
pub fn parse_args(args: &Vec<String>) -> (parsed: Result<Args, ArgsError>)
    ensures
        match parsed {
            Ok(selected) => spec_parse_args(args.deep_view()) == Ok::<ArgsView, ArgsErrorView>(
                selected@,
            ),
            Err(error) => spec_parse_args(args.deep_view()) == Err::<ArgsView, ArgsErrorView>(
                error@,
            ),
        },
        parsed matches Ok(selected) ==> selected.log_level != LevelFilter::Off,
{
    let ghost all = args.deep_view();
    let log_level_flag = String::from_str(LOG_LEVEL_FLAG);
    let socket_path_flag = String::from_str(SOCKET_PATH_FLAG);
    let mut log_level: Option<LevelFilter> = None;
    let mut socket_path: Option<String> = None;
    let ghost mut so_far = Selection { log_level: None, socket_path: None };
    let mut at: usize = 1;
    if args.len() == 0 {
        at = 0;
    }
    while at < args.len()
        invariant
            all == args.deep_view(),
            at <= args.len(),
            log_level_flag@ == LOG_LEVEL_FLAG@,
            socket_path_flag@ == SOCKET_PATH_FLAG@,
            so_far.log_level == log_level,
            log_level != Some(LevelFilter::Off),
            so_far.socket_path == match socket_path {
                Some(path) => Some(path@),
                None => None,
            },
            spec_options(spec_options_of(all)) == spec_rest(all, at as int, so_far),
        decreases args.len() - at,
    {
        let ghost options = all.skip(at as int);
        if args[at] == log_level_flag {
            if at + 1 >= args.len() {
                return Err(ArgsError::MissingLogLevel);
            }
            match selected_level(args[at + 1].as_str()) {
                None => {
                    return Err(ArgsError::InvalidLogLevel { name: args[at + 1].clone() });
                },
                Some(level) => {
                    proof {
                        assert(options.skip(2) =~= all.skip(at + 2));
                        so_far = so_far.overridden_by(
                            Selection { log_level: Some(level), socket_path: None },
                        );
                    }
                    log_level = Some(level);
                },
            }
        } else if args[at] == socket_path_flag {
            if at + 1 >= args.len() {
                return Err(ArgsError::MissingSocketPath);
            }
            let path = args[at + 1].clone();
            proof {
                assert(options.skip(2) =~= all.skip(at + 2));
                so_far = so_far.overridden_by(
                    Selection { log_level: None, socket_path: Some(path@) },
                );
            }
            socket_path = Some(path);
        } else {
            return Err(ArgsError::UnknownArgument);
        }
        at = at + 2;
    }
    let log_level = match log_level {
        Some(level) => level,
        None => LevelFilter::Info,
    };
    let socket_path = match socket_path {
        Some(path) => path,
        None => String::from_str(DEFAULT_API_SOCKET),
    };
    Ok(Args { log_level, socket_path })
}

/// The name of the program on a command line.
pub open spec fn spec_program_name(args: Seq<Seq<char>>) -> Seq<char> {
    if args.len() > 0 {
        args[0]
    } else {
        DEFAULT_PROGRAM_NAME@
    }
}

/// The usage message for a program of the given name.
pub open spec fn spec_usage(program_name: Seq<char>) -> Seq<char> {
    "Usage: "@ + program_name + USAGE_OPTIONS@ + DEFAULT_API_SOCKET@
}

/// A complaint, an empty line, and the usage message.
pub open spec fn spec_usage_msg(msg: Seq<char>, program_name: Seq<char>) -> Seq<char> {
    msg + "\n\n"@ + spec_usage(program_name)
}

impl ArgsErrorView {
    /// What is said of the refusal before the usage message, if anything.
    pub open spec fn complaint(self) -> Option<Seq<char>> {
        match self {
            ArgsErrorView::MissingLogLevel => Some("Did not give argument to --log-level"@),
            ArgsErrorView::InvalidLogLevel { name } => Some(
                "Invalid log level '"@ + name + "'"@,
            ),
            ArgsErrorView::MissingSocketPath => Some("Did not give argument to --socket-path"@),
            ArgsErrorView::UnknownArgument => None,
        }
    }

    /// What the refusal prints: the complaint, where there is one, and the usage
    /// message.
    pub open spec fn report(self, program_name: Seq<char>) -> Seq<char> {
        match self.complaint() {
            Some(msg) => spec_usage_msg(msg, program_name),
            None => spec_usage(program_name),
        }
    }
}

/// The name by which the program was called: the first word of the command
/// line, or a stand-in where there is none.
pub fn program_name(args: &Vec<String>) -> (name: String)
    ensures
        name@ == spec_program_name(args.deep_view()),
{
    if args.len() > 0 {
        args[0].clone()
    } else {
        String::from_str(DEFAULT_PROGRAM_NAME)
    }
}

/// The usage message for a program of the given name.
pub fn usage(program_name: &str) -> (text: String)
    ensures
        text@ == spec_usage(program_name@),
{
    let mut text = String::from_str("Usage: ");
    text.append(program_name);
    text.append(USAGE_OPTIONS);
    text.append(DEFAULT_API_SOCKET);
    text
}

/// A complaint, followed by the usage message.
pub fn usage_msg(msg: &str, program_name: &str) -> (text: String)
    ensures
        text@ == spec_usage_msg(msg@, program_name@),
{
    let usage_text = usage(program_name);
    let mut text = String::from_str(msg);
    text.append("\n\n");
    text.append(usage_text.as_str());
    text
}

impl ArgsError {
    /// What is said of the refusal before the usage message, if anything.
    pub fn complaint(&self) -> (msg: Option<String>)
        ensures
            msg is Some <==> self@.complaint() is Some,
            msg matches Some(text) ==> self@.complaint() == Some(text@),
    {
        match self {
            ArgsError::MissingLogLevel => Some(
                String::from_str("Did not give argument to --log-level"),
            ),
            ArgsError::InvalidLogLevel { name } => {
                let mut text = String::from_str("Invalid log level '");
                text.append(name.as_str());
                text.append("'");
                Some(text)
            },
            ArgsError::MissingSocketPath => Some(
                String::from_str("Did not give argument to --socket-path"),
            ),
            ArgsError::UnknownArgument => None,
        }
    }

    /// What the refusal prints for a program of the given name.
    pub fn report(&self, program_name: &str) -> (text: String)
        ensures
            text@ == self@.report(program_name@),
    {
        match self.complaint() {
            Some(msg) => usage_msg(msg.as_str(), program_name),
            None => usage(program_name),
        }
    }
}

} // verus!
