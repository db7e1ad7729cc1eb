//! Terminal results of the argument interpreter.

use vstd::prelude::*;

verus! {

/// How a run of the argument interpreter ends when it does not produce a
/// configuration.
///
/// `PrintUserInformation` is not a failure: it carries text to print before
/// a clean exit.  `CommandLineParse` carries a message for the error stream
/// and asks for a nonzero exit.
#[derive(Debug)]
pub enum Error {
    PrintUserInformation(String),
    CommandLineParse(String),
}

impl Error {
    /// The carried text.
    pub fn message(&self) -> (r: &str)
        ensures
            (match self {
                Error::PrintUserInformation(m) => r@ == m@,
                Error::CommandLineParse(m) => r@ == m@,
            }),
    {
        match self {
            Error::PrintUserInformation(m) => m.as_str(),
            Error::CommandLineParse(m) => m.as_str(),
        }
    }

    /// Whether this result asks for a clean exit.
    pub fn is_information(&self) -> (r: bool)
        ensures
            r == (self matches Error::PrintUserInformation(_)),
    {
        match self {
            Error::PrintUserInformation(_) => true,
            Error::CommandLineParse(_) => false,
        }
    }
}

impl PartialEq for Error {
    fn eq(&self, other: &Self) -> (r: bool) {
        match (self, other) {
            (Error::PrintUserInformation(a), Error::PrintUserInformation(b)) => crate::strutil::str_eq_str(
                a.as_str(),
                b.as_str(),
            ),
            (Error::CommandLineParse(a), Error::CommandLineParse(b)) => crate::strutil::str_eq_str(
                a.as_str(),
                b.as_str(),
            ),
            _ => false,
        }
    }
}

impl vstd::std_specs::cmp::PartialEqSpecImpl for Error {
    open spec fn obeys_eq_spec() -> bool {
        true
    }

    open spec fn eq_spec(&self, other: &Self) -> bool {
        match (self, other) {
            (Error::PrintUserInformation(a), Error::PrintUserInformation(b)) => a@ == b@,
            (Error::CommandLineParse(a), Error::CommandLineParse(b)) => a@ == b@,
            _ => false,
        }
    }
}

} // verus!
