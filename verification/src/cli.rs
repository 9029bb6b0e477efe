//! The rules of the command line: which arguments are taken, and what is
//! reported of a lookup. Reading the arguments and writing the report are the
//! caller's part.

use vstd::prelude::*;
use crate::address::IpAddress;
use crate::resolver::ResolutionError;

verus! {

/// The command line did not hold exactly one host.
#[derive(Clone, Copy, Debug, PartialEq, Eq)]
pub enum UsageError {
    /// No host was given.
    MissingArgument,
    /// More than the host was given.
    TooManyArguments,
}

impl UsageError {
    /// The diagnostic that goes with the error.
    pub fn message(&self) -> (text: &'static str)
        ensures
            text@ == match *self {
                UsageError::MissingArgument => "argument must be provided"@,
                UsageError::TooManyArguments => "Too many arguments!"@,
            },
    {
        match self {
            UsageError::MissingArgument => "argument must be provided",
            UsageError::TooManyArguments => "Too many arguments!",
        }
    }
}

/// The host named on the command line. `arguments` are the arguments after
/// the program's name. Exactly one is accepted, and it is the host; with any
/// other number there is no host, and so nothing to look up.
pub fn host_argument(arguments: &[String]) -> (result: Result<&str, UsageError>)
    ensures
        match result {
            Ok(host) => arguments@.len() == 1 && host@ == arguments@[0]@,
            Err(UsageError::MissingArgument) => arguments@.len() == 0,
            Err(UsageError::TooManyArguments) => arguments@.len() >= 2,
        },
{
    if arguments.len() == 0 {
        Err(UsageError::MissingArgument)
    } else if arguments.len() == 1 {
        Ok(arguments[0].as_str())
    } else {
        Err(UsageError::TooManyArguments)
    }
}

/// What the command line reports of a lookup.
#[derive(Debug)]
pub enum Report {
    /// The addresses found, each to be written on a line of its own on
    /// standard output, in this order. Never empty when made by `report`.
    Addresses(Vec<IpAddress>),
    /// The lookup succeeded and found nothing: a notice for standard error.
    NothingFound,
    /// The lookup failed: a diagnostic, and a failing exit.
    Failed(ResolutionError),
}

impl Report {
    /// Whether the process ends successfully after this report. Finding
    /// nothing is no failure.
    pub open spec fn is_success(self) -> bool {
        !(self is Failed)
    }

    /// Whether the process ends successfully after this report.
    pub fn succeeded(&self) -> (yes: bool)
        ensures
            yes == self.is_success(),
    {
        match self {
            Report::Failed(_) => false,
            _ => true,
        }
    }
}

/// The notice written to standard error when a lookup finds no address.
pub fn nothing_found_notice() -> (text: &'static str)
    ensures
        text@ == "No IPs found!"@,
{
    "No IPs found!"
}

/// The report of a lookup's result: the addresses as they came where there
/// are any, the notice where the list is empty, the error where it failed.
pub fn report(result: Result<Vec<IpAddress>, ResolutionError>) -> (outcome: Report)
    ensures
        match result {
            Ok(list) => if list@.len() == 0 {
                outcome is NothingFound
            } else {
                outcome == Report::Addresses(list)
            },
            Err(error) => outcome == Report::Failed(error),
        },
        outcome.is_success() == result.is_ok(),
{
    match result {
        Ok(list) => if list.len() == 0 {
            Report::NothingFound
        } else {
            Report::Addresses(list)
        },
        Err(error) => Report::Failed(error),
    }
}

} // verus!
