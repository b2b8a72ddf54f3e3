use vstd::prelude::*;

use crate::value::ValueType;

verus! {

/// The errors this core reports synchronously to the caller of a launch.
#[derive(Clone, Debug)]
pub enum CrushError {
    /// An argument list did not hold exactly one value.
    ExpectedSingleValue,
    /// The single argument was named, or not of the expected type.
    WrongArgumentType(ValueType),
    /// A closure without stages was invoked.
    EmptyClosure,
    /// The name is neither bound nor found on the executable search path.
    UnknownCommand(String),
    /// The command reference resolved to something that is not callable.
    NotACommand,
    /// A declaration into a scope that was locked.
    ReadOnlyScope,
    /// A declaration of a name that the scope already binds.
    AlreadyDeclared(String),
    /// A regular expression that could not be compiled.
    InvalidPattern(String),
    /// A failure reported by the operating system.
    System(String),
}

pub type CrushResult<T> = Result<T, CrushError>;

} // verus!
