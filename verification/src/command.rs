//! The two commands of the command line and how an invocation is read.

use vstd::prelude::*;
use vstd::string::*;

verus! {

/// What to do with the objects under a URL.
#[derive(Clone, Copy, Debug, PartialEq, Eq, Structural)]
pub enum Command {
    /// Print the name and size of every object.
    List,
    /// Print the number of zero bytes of every object.
    Zeros,
}

/// Why an invocation cannot be carried out.
#[derive(Clone, Debug, PartialEq, Eq)]
pub enum UsageError {
    /// Not exactly a command and a URL were given.
    WrongArgumentCount,
    /// The command is neither `list` nor `zeros`.
    UnknownCommand { name: String },
}

/// The command that a word names.
pub open spec fn command_named(name: Seq<char>) -> Option<Command> {
    if name == "list"@ {
        Some(Command::List)
    } else if name == "zeros"@ {
        Some(Command::Zeros)
    } else {
        None
    }
}

/// The description of an unknown command.
pub open spec fn unknown_command_text(name: Seq<char>) -> Seq<char> {
    "Unknown command '"@ + name + "'. Expected 'list' or 'zeros'"@
}

/// Reads a command word.
pub fn parse_command(name: &str) -> (r: Result<Command, UsageError>)
    ensures
        match command_named(name@) {
            Some(command) => r == Ok::<Command, UsageError>(command),
            None => r matches Err(UsageError::UnknownCommand { name: n }) && n@ == name@,
        },
{
    let word = name.to_owned();
    if word == String::from_str("list") {
        Ok(Command::List)
    } else if word == String::from_str("zeros") {
        Ok(Command::Zeros)
    } else {
        Err(UsageError::UnknownCommand { name: word })
    }
}

/// Checks the shape of an invocation: the program's name, a command, a URL.
/// Returns the positions of the command and of the URL.
pub fn check_arguments(args: &Vec<String>) -> (r: Result<(usize, usize), UsageError>)
    ensures
        args@.len() == 3 ==> r == Ok::<(usize, usize), UsageError>((1usize, 2usize)),
        args@.len() != 3 ==> r == Err::<(usize, usize), UsageError>(
            UsageError::WrongArgumentCount,
        ),
{
    if args.len() != 3 {
        Err(UsageError::WrongArgumentCount)
    } else {
        Ok((1, 2))
    }
}

impl UsageError {
    /// Renders the error as a single descriptive line.
    pub fn message(&self) -> (text: String)
        ensures
            text@ == match *self {
                UsageError::WrongArgumentCount => "Invalid command line"@,
                UsageError::UnknownCommand { name } => unknown_command_text(name@),
            },
    {
        match self {
            UsageError::WrongArgumentCount => String::from_str("Invalid command line"),
            UsageError::UnknownCommand { name } => String::from_str("Unknown command '").concat(
                name.as_str(),
            ).concat("'. Expected 'list' or 'zeros'"),
        }
    }
}

} // verus!
