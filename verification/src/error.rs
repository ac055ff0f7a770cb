//! The error that every component of a simulation reports.

use vstd::prelude::*;
use vstd::string::StringExecFns;

verus! {

/// The main kinds of failure: that of a component, told in the component's
/// own terms, or that of one of the three moves of the step protocol.
#[derive(Debug)]
pub enum DOSError<T> {
    /// A component failed, in its own terms.
    Component(T),
    /// The outputs of a component could not be handed out.
    Outputs,
    /// The inputs of a component could not be taken in.
    Inputs,
    /// A component could not be advanced by one step.
    Step,
    /// A failure to read or write a record, with what the system said of it.
    IO(String),
}

impl<T> DOSError<T> {
    /// What the error says of itself; nothing where it is that of a
    /// component, which speaks in its own terms.
    pub open spec fn spec_message(self) -> Option<Seq<char>> {
        match self {
            DOSError::Inputs => Some("DOS Inputs failed"@),
            DOSError::Outputs => Some("DOS Outputs failed"@),
            DOSError::Step => Some("DOS Step failed"@),
            DOSError::Component(_) => None,
            DOSError::IO(error) => Some(error@),
        }
    }

    /// What the error says of itself; nothing where it is that of a
    /// component, which speaks in its own terms.
    pub fn message(&self) -> (r: Option<String>)
        ensures
            match r {
                Some(text) => self.spec_message() == Some(text@),
                None => self.spec_message() is None,
            },
    {
        match self {
            DOSError::Inputs => Some(String::from_str("DOS Inputs failed")),
            DOSError::Outputs => Some(String::from_str("DOS Outputs failed")),
            DOSError::Step => Some(String::from_str("DOS Step failed")),
            DOSError::Component(_) => None,
            DOSError::IO(error) => Some(error.clone()),
        }
    }

    /// The error of a failure to read or write a record.
    pub fn from_io(error: String) -> (r: Self)
        ensures
            r == DOSError::<T>::IO(error),
    {
        DOSError::IO(error)
    }
}

} // verus!
