//! The decisions of the command-line driver: how many positional arguments
//! are acceptable, and the fixed message reported for each fatal error.

use vstd::prelude::*;

verus! {

/// The fatal errors of a run: a wrong argument count, a failed read, or a
/// failed write.
#[derive(Clone, Copy, Debug, PartialEq, Eq, Structural)]
pub enum DriverError {
    /// Fewer than two positional arguments were given.
    NotEnoughArgs,
    /// More than two positional arguments were given.
    TooManyArgs,
    /// The input file could not be read.
    ReadFailed,
    /// The output file could not be written.
    WriteFailed,
}

/// Accepts exactly two positional arguments (an input path and an output
/// path); any other count is fatal.
pub fn check_arg_count(n_args: usize) -> (r: Result<(), DriverError>)
    ensures
        r is Ok <==> n_args == 2,
        n_args < 2 ==> r == Result::<(), DriverError>::Err(DriverError::NotEnoughArgs),
        n_args > 2 ==> r == Result::<(), DriverError>::Err(DriverError::TooManyArgs),
{
    if n_args < 2 {
        Err(DriverError::NotEnoughArgs)
    } else if n_args > 2 {
        Err(DriverError::TooManyArgs)
    } else {
        Ok(())
    }
}

/// The diagnostic message that the front end reports for `e`.
pub open spec fn error_message_spec(e: DriverError) -> Seq<char> {
    match e {
        DriverError::NotEnoughArgs => "Not enough arguments; exactly 2 arguments needed"@,
        DriverError::TooManyArgs => "Too many arguments; exactly 2 arguments needed"@,
        DriverError::ReadFailed => "Could not read the file"@,
        DriverError::WriteFailed => "Unable to write file"@,
    }
}

/// The diagnostic message for `e`, as an owned string.
pub fn error_message(e: DriverError) -> (s: String)
    ensures
        s@ == error_message_spec(e),
{
    match e {
        DriverError::NotEnoughArgs => String::from_str(
            "Not enough arguments; exactly 2 arguments needed",
        ),
        DriverError::TooManyArgs => String::from_str(
            "Too many arguments; exactly 2 arguments needed",
        ),
        DriverError::ReadFailed => String::from_str("Could not read the file"),
        DriverError::WriteFailed => String::from_str("Unable to write file"),
    }
}

} // verus!
