//! What higher-level operations share: they turn into a command line first.

use crate::exe::Command;
use vstd::prelude::*;

verus! {

/// What can go wrong while a command line is being set up.
#[derive(Debug)]
pub enum SetupError {
    /// An earlier stage of the setup failed.
    Inner(Box<SetupErrorWrapper>),
    /// Reading or writing something failed.
    Io(std::io::Error),
}

impl From<std::io::Error> for SetupError {
    fn from(error: std::io::Error) -> (wrapped: SetupError) {
        SetupError::Io(error)
    }
}

impl vstd::std_specs::convert::FromSpecImpl<std::io::Error> for SetupError {
    open spec fn obeys_from_spec() -> bool {
        true
    }

    open spec fn from_spec(error: std::io::Error) -> SetupError {
        SetupError::Io(error)
    }
}

impl SetupError {
    /// Attaches a description of the stage that failed.
    pub fn with_context(self, context: String) -> (wrapped: SetupErrorWrapper)
        ensures
            wrapped == (SetupErrorWrapper { context, error: self }),
    {
        SetupErrorWrapper { context, error: self }
    }
}

/// A [`SetupError`] together with the stage that failed.
#[derive(Debug)]
pub struct SetupErrorWrapper {
    /// The stage that failed.
    pub context: String,
    /// The underlying error.
    pub error: SetupError,
}

/// An operation that is carried out by running a command line.
pub trait CommandBase: Sized {
    /// The command line of this operation can be set up.
    spec fn can_set_up(&self) -> bool;

    /// `made` is what setting up the command line of this operation
    /// gives.
    spec fn sets_up(self, made: Result<Command, SetupError>) -> bool;

    /// Generates the command line of this operation.
    fn setup_command(self) -> (made: Result<Command, SetupError>)
        requires
            self.can_set_up(),
        ensures
            self.sets_up(made),
    ;
}

} // verus!
