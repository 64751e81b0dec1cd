//! The backend's command line.

use vstd::prelude::*;
use vstd::string::*;

verus! {

/// What the command line asks of the backend.
#[derive(Debug, Clone, Copy, PartialEq, Eq, Structural)]
pub struct Options {
    /// Replace an instance that is running.
    pub replace: bool,
    /// Print debug information.
    pub verbose: bool,
}

impl Options {
    pub fn new() -> (options: Self)
        ensures
            options == (Options { replace: false, verbose: false }),
    {
        Options { replace: false, verbose: false }
    }
}

/// What is to be done for a command line.
#[derive(Debug, Clone, PartialEq, Eq)]
pub enum Command {
    /// Run the backend.
    Run(Options),
    /// Print the help text for the program of this name, and leave with
    /// success.
    Help(String),
    /// Print the version, and leave with success.
    Version,
    /// Complain of this argument, and leave with failure.
    Unknown(String),
}

/// A command without its texts' representation.
pub enum Parsed {
    Run(Options),
    Help(Seq<char>),
    Version,
    Unknown(Seq<char>),
}

impl View for Command {
    type V = Parsed;

    open spec fn view(&self) -> Parsed {
        match self {
            Command::Run(options) => Parsed::Run(*options),
            Command::Help(program) => Parsed::Help(program@),
            Command::Version => Parsed::Version,
            Command::Unknown(argument) => Parsed::Unknown(argument@),
        }
    }
}

pub open spec fn is_help(argument: Seq<char>) -> bool {
    argument == "-h"@ || argument == "--help"@
}

pub open spec fn is_replace(argument: Seq<char>) -> bool {
    argument == "-r"@ || argument == "--replace"@
}

pub open spec fn is_verbose(argument: Seq<char>) -> bool {
    argument == "-v"@ || argument == "--verbose"@
}

pub open spec fn is_version(argument: Seq<char>) -> bool {
    argument == "--version"@
}

/// The command of the arguments from `start` on, given the program's name
/// and the options that the arguments before `start` have set. The
/// arguments are read from left to right: an option is set, and the first
/// argument that asks for help or the version, or that is not known, decides.
pub open spec fn parse_from(
    program: Seq<char>,
    arguments: Seq<Seq<char>>,
    start: int,
    options: Options,
) -> Parsed
    decreases arguments.len() - start,
{
    if start < 0 || start >= arguments.len() {
        Parsed::Run(options)
    } else {
        let argument = arguments[start];
        if is_help(argument) {
            Parsed::Help(program)
        } else if is_replace(argument) {
            parse_from(
                program,
                arguments,
                start + 1,
                Options { replace: true, verbose: options.verbose },
            )
        } else if is_verbose(argument) {
            parse_from(
                program,
                arguments,
                start + 1,
                Options { replace: options.replace, verbose: true },
            )
        } else if is_version(argument) {
            Parsed::Version
        } else {
            Parsed::Unknown(argument)
        }
    }
}

/// The command of a command line, whose first entry is the program's name.
/// A command line without entries runs the backend.
pub open spec fn parse(line: Seq<Seq<char>>) -> Parsed {
    if line.len() == 0 {
        Parsed::Run(Options { replace: false, verbose: false })
    } else {
        parse_from(line[0], line, 1, Options { replace: false, verbose: false })
    }
}

/// The texts of a command line.
pub open spec fn texts(line: Seq<String>) -> Seq<Seq<char>> {
    line.map_values(|entry: String| entry@)
}

fn is_either(argument: &String, short: &str, long: &str) -> (found: bool)
    ensures
        found == (argument@ == short@ || argument@ == long@),
{
    *argument == String::from_str(short) || *argument == String::from_str(long)
}

/// Reads the command line.
pub fn handle_cli(line: &Vec<String>) -> (command: Command)
    ensures
        command@ == parse(texts(line@)),
{
    let ghost arguments = texts(line@);
    let mut options = Options::new();
    if line.len() == 0 {
        return Command::Run(options);
    }
    let ghost program = arguments[0];
    let mut i: usize = 1;
    while i < line.len()
        invariant
            1 <= i <= line@.len(),
            arguments == texts(line@),
            program == arguments[0],
            parse(arguments) == parse_from(program, arguments, i as int, options),
        decreases line@.len() - i,
    {
        let argument = &line[i];
        if is_either(argument, "-h", "--help") {
            return Command::Help(line[0].clone());
        } else if is_either(argument, "-r", "--replace") {
            options.replace = true;
        } else if is_either(argument, "-v", "--verbose") {
            options.verbose = true;
        } else if is_either(argument, "--version", "--version") {
            return Command::Version;
        } else {
            return Command::Unknown(argument.clone());
        }
        i += 1;
    }
    Command::Run(options)
}

} // verus!
