//! Subprocess invocation: a command model, exit-status classification, buffered
//! and streaming execution protocols, and a shell-script layer on top of them.
//!
//! Spawning processes and touching the filesystem is left to the caller; this
//! crate holds the data model and every decision taken around those effects.
//!
//! - [`exe`] holds the command, its launch descriptor and the classification
//!   of an exit status; [`fs`] the paths that a command names.
//! - [`sync`] concludes a run that was waited for, and decodes its output.
//! - [`stream`] decides, step by step, how the two output streams of a
//!   running process are merged into one sequence of lines.
//! - [`sh`] turns scripts into command lines, and [`dump`] reads the
//!   environment that a script printed.
//! - [`signal`], [`ordered_map`], [`native`] and [`text`] state what this
//!   crate takes on trust from `signal_hook`, `indexmap`, `async_process`
//!   and the standard library.

pub mod base;
pub mod dump;
pub mod exe;
pub mod fs;
pub mod native;
pub mod ordered_map;
pub mod sh;
pub mod signal;
pub mod stream;
pub mod sync;
pub mod text;

use vstd::prelude::*;

verus! {

/// Whatever can go wrong in this crate.
#[derive(Debug)]
pub enum Error {
    /// A command line failed.
    Exe(exe::CommandError),
    /// A command line could not be set up.
    Setup(base::SetupError),
    /// A shell script failed.
    Sh(sh::ShellError),
}

impl From<exe::CommandError> for Error {
    fn from(error: exe::CommandError) -> (wrapped: Error) {
        Error::Exe(error)
    }
}

impl vstd::std_specs::convert::FromSpecImpl<exe::CommandError> for Error {
    open spec fn obeys_from_spec() -> bool {
        true
    }

    open spec fn from_spec(error: exe::CommandError) -> Error {
        Error::Exe(error)
    }
}

impl From<base::SetupError> for Error {
    fn from(error: base::SetupError) -> (wrapped: Error) {
        Error::Setup(error)
    }
}

impl vstd::std_specs::convert::FromSpecImpl<base::SetupError> for Error {
    open spec fn obeys_from_spec() -> bool {
        true
    }

    open spec fn from_spec(error: base::SetupError) -> Error {
        Error::Setup(error)
    }
}

impl From<sh::ShellError> for Error {
    fn from(error: sh::ShellError) -> (wrapped: Error) {
        Error::Sh(error)
    }
}

impl vstd::std_specs::convert::FromSpecImpl<sh::ShellError> for Error {
    open spec fn obeys_from_spec() -> bool {
        true
    }

    open spec fn from_spec(error: sh::ShellError) -> Error {
        Error::Sh(error)
    }
}

} // verus!
