//! What can go wrong in a dispatch.

use vstd::prelude::*;

verus! {

/// An error of a dispatch. An event that merely has no meaning in a state is
/// no error: it comes back as an inedible event.
#[derive(Debug, PartialEq, Eq)]
pub enum Error {
    /// The database failed: what it said.
    Storage(String),
    /// The event can reach this state, but what it does there is not
    /// defined yet.
    Wip(String),
}

impl Error {
    /// The message of the error.
    pub open spec fn message(self) -> Seq<char> {
        match self {
            Error::Storage(message) => message@,
            Error::Wip(message) => message@,
        }
    }

    /// The message of the error.
    pub fn text(&self) -> (text: String)
        ensures
            text@ == self.message(),
    {
        match self {
            Error::Storage(message) => message.clone(),
            Error::Wip(message) => message.clone(),
        }
    }
}

} // verus!
