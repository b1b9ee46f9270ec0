//! Structured parse errors and their human-readable messages.
//!
//! Every failure of the library is returned as a [`CommandError`]; nothing
//! is printed and nothing panics. The spec-level mirror [`SpecError`] holds
//! the same data over `Seq<char>` so contracts can speak of it exactly.

use vstd::prelude::*;
use vstd::string::StringExecFns;

verus! {

/// Why a numeric token failed to parse, mirroring the causes a
/// radix-based integer conversion distinguishes.
#[derive(Clone, Copy, Debug, PartialEq, Eq, Structural)]
pub enum NumericError {
    /// No digits at all (an empty token, or nothing after the `0x` prefix).
    Empty,
    /// A character that is not a digit of the selected radix.
    InvalidDigit,
    /// The digits denote a value above `u32::MAX`.
    Overflow,
}

/// A failure of one parse attempt. The registry stays usable afterwards.
#[derive(Debug, PartialEq, Eq)]
pub enum CommandError {
    /// The input line held no tokens.
    EmptyCommand,
    /// The first token matched no registered command.
    UnknownCommand { name: String },
    /// A required argument token was absent.
    MissingArgument,
    /// A numeric argument was malformed, with the underlying cause.
    MalformedNumeric { cause: NumericError },
    /// A boolean argument was not exactly `true` or `false`.
    MalformedBoolean,
}

/// The spec-level value of a [`CommandError`].
pub enum SpecError {
    EmptyCommand,
    UnknownCommand { name: Seq<char> },
    MissingArgument,
    MalformedNumeric { cause: NumericError },
    MalformedBoolean,
}

impl View for CommandError {
    type V = SpecError;

    open spec fn view(&self) -> SpecError {
        match self {
            CommandError::EmptyCommand => SpecError::EmptyCommand,
            CommandError::UnknownCommand { name } => SpecError::UnknownCommand { name: name@ },
            CommandError::MissingArgument => SpecError::MissingArgument,
            CommandError::MalformedNumeric { cause } => SpecError::MalformedNumeric {
                cause: *cause,
            },
            CommandError::MalformedBoolean => SpecError::MalformedBoolean,
        }
    }
}

/// The message text of each error. An unknown command echoes the offending
/// token and points the user at `help`.
pub open spec fn spec_message(e: SpecError) -> Seq<char> {
    match e {
        SpecError::EmptyCommand => "Empty Command"@,
        SpecError::UnknownCommand { name } => "Unknown command '"@ + name
            + "'\n\tEnter 'help' for a list of commands"@,
        SpecError::MissingArgument => "Requires a string as a argument"@,
        SpecError::MalformedNumeric { cause } => match cause {
            NumericError::Empty => "cannot parse integer from empty string"@,
            NumericError::InvalidDigit => "invalid digit found in string"@,
            NumericError::Overflow => "number too large to fit in target type"@,
        },
        SpecError::MalformedBoolean => "Expected a boolean argument"@,
    }
}

impl CommandError {
    /// Renders the error for presentation by the caller.
    pub fn message(&self) -> (m: String)
        ensures
            m@ == spec_message(self@),
    {
        match self {
            CommandError::EmptyCommand => "Empty Command".to_owned(),
            CommandError::UnknownCommand { name } => {
                let mut m: String = "Unknown command '".to_owned();
                m.append(name.as_str());
                m.append("'\n\tEnter 'help' for a list of commands");
                m
            },
            CommandError::MissingArgument => "Requires a string as a argument".to_owned(),
            CommandError::MalformedNumeric { cause } => match cause {
                NumericError::Empty => "cannot parse integer from empty string".to_owned(),
                NumericError::InvalidDigit => "invalid digit found in string".to_owned(),
                NumericError::Overflow => "number too large to fit in target type".to_owned(),
            },
            CommandError::MalformedBoolean => "Expected a boolean argument".to_owned(),
        }
    }
}

} // verus!
