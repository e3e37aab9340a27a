//! What can be wrong with the arguments, and the words for it.

use vstd::prelude::*;

verus! {

/// Which of the two unit arguments.
#[derive(Clone, Copy, Debug, PartialEq, Eq, Structural)]
pub enum Position {
    /// The unit to convert from: the first argument.
    Source,
    /// The unit to convert to: the second argument.
    Target,
}

/// What is wrong with a unit argument.
#[derive(Clone, Copy, Debug, PartialEq, Eq, Structural)]
pub enum UnitFault {
    /// The argument was not given.
    Absent,
    /// The argument names no unit.
    Unrecognized,
}

/// Why the arguments make no conversion request.
#[derive(Clone, Copy, Debug, PartialEq, Eq, Structural)]
pub enum ConfigError {
    /// A unit argument is absent or names no unit.
    InvalidUnit(Position, UnitFault),
    /// No amount was given.
    MissingAmount,
    /// The amount does not read as a number.
    NotANumber,
    /// The amount is below zero.
    NegativeAmount,
}

impl ConfigError {
    /// The message shown to the user.
    pub open spec fn text(self) -> Seq<char> {
        match self {
            ConfigError::InvalidUnit(Position::Source, UnitFault::Absent) => {
                "Didn't get a source unit"@
            },
            ConfigError::InvalidUnit(Position::Source, UnitFault::Unrecognized) => {
                "Unexpected unit at first argument"@
            },
            ConfigError::InvalidUnit(Position::Target, UnitFault::Absent) => {
                "Didn't get a target unit"@
            },
            ConfigError::InvalidUnit(Position::Target, UnitFault::Unrecognized) => {
                "Unexpected unit at second argument"@
            },
            ConfigError::MissingAmount => "Didn't get an amount"@,
            ConfigError::NotANumber => "Amount is not a number"@,
            ConfigError::NegativeAmount => "Amount must be a non-negative number"@,
        }
    }

    /// The message shown to the user.
    pub fn message(&self) -> (message: &'static str)
        ensures
            message@ == self.text(),
    {
        match self {
            ConfigError::InvalidUnit(Position::Source, UnitFault::Absent) => {
                "Didn't get a source unit"
            },
            ConfigError::InvalidUnit(Position::Source, UnitFault::Unrecognized) => {
                "Unexpected unit at first argument"
            },
            ConfigError::InvalidUnit(Position::Target, UnitFault::Absent) => {
                "Didn't get a target unit"
            },
            ConfigError::InvalidUnit(Position::Target, UnitFault::Unrecognized) => {
                "Unexpected unit at second argument"
            },
            ConfigError::MissingAmount => "Didn't get an amount",
            ConfigError::NotANumber => "Amount is not a number",
            ConfigError::NegativeAmount => "Amount must be a non-negative number",
        }
    }
}

/// No two errors share a message: the message tells the error.
pub proof fn lemma_messages_distinct(a: ConfigError, b: ConfigError)
    requires
        a != b,
    ensures
        a.text() != b.text(),
{
    reveal_strlit("Didn't get a source unit");
    reveal_strlit("Unexpected unit at first argument");
    reveal_strlit("Didn't get a target unit");
    reveal_strlit("Unexpected unit at second argument");
    reveal_strlit("Didn't get an amount");
    reveal_strlit("Amount is not a number");
    reveal_strlit("Amount must be a non-negative number");
    assert("Unexpected unit at first argument"@.len() == 33);
    assert("Unexpected unit at second argument"@.len() == 34);
    assert("Didn't get an amount"@.len() == 20);
    assert("Amount is not a number"@.len() == 22);
    assert("Amount must be a non-negative number"@.len() == 36);
    // These two have one length, and part at their fourteenth character.
    assert("Didn't get a source unit"@.len() == 24);
    assert("Didn't get a target unit"@.len() == 24);
    assert("Didn't get a source unit"@[13] == 's');
    assert("Didn't get a target unit"@[13] == 't');
}

} // verus!
