//! The descriptor that the process runtime launches a child from.
//!
//! It is `async_process::Command`, built up one call at a time. What it has
//! been told is modelled by [`Launch`].

use async_process::Command as NativeCommand;
use vstd::prelude::*;

verus! {

/// `async_process::Command`, of which only what [`launch_of`] tells is
/// known.
#[verifier::external_type_specification]
#[verifier::external_body]
pub struct ExNativeCommand(NativeCommand);

/// What a descriptor has been told: the program, the working directory if
/// one was set, the arguments in order, the environment variables that were
/// set, and whether the child gets them on top of the environment of its
/// parent.
pub ghost struct Launch {
    pub program: Seq<char>,
    pub dir: Option<Seq<char>>,
    pub args: Seq<Seq<char>>,
    pub env: Map<Seq<char>, Seq<char>>,
    pub inherits_env: bool,
}

/// What `native` has been told so far.
pub uninterp spec fn launch_of(native: NativeCommand) -> Launch;

/// `async_process::Command::new`. Trusted: the new descriptor names
/// `program` and nothing else: no directory, no argument, no variable, and
/// the child inherits the environment of its parent.
#[verifier::external_body]
pub(crate) fn native_new(program: &str) -> (native: NativeCommand)
    ensures
        launch_of(native) == (Launch {
            program: program@,
            dir: None,
            args: Seq::empty(),
            env: Map::empty(),
            inherits_env: true,
        }),
{
    NativeCommand::new(program)
}

/// `async_process::Command::current_dir`. Trusted: it sets the working
/// directory and leaves the rest.
#[verifier::external_body]
pub(crate) fn native_current_dir(native: &mut NativeCommand, dir: &str)
    ensures
        launch_of(*final(native)) == (Launch { dir: Some(dir@), ..launch_of(*old(native)) }),
{
    native.current_dir(dir);
}

/// `async_process::Command::arg`. Trusted: it adds one argument after those
/// given before and leaves the rest.
#[verifier::external_body]
pub(crate) fn native_arg(native: &mut NativeCommand, arg: &str)
    ensures
        launch_of(*final(native)) == (Launch {
            args: launch_of(*old(native)).args.push(arg@),
            ..launch_of(*old(native))
        }),
{
    native.arg(arg);
}

/// `async_process::Command::env`. Trusted: it sets one variable, replacing
/// an earlier value of it, and leaves the rest.
#[verifier::external_body]
pub(crate) fn native_env(native: &mut NativeCommand, key: &str, value: &str)
    ensures
        launch_of(*final(native)) == (Launch {
            env: launch_of(*old(native)).env.insert(key@, value@),
            ..launch_of(*old(native))
        }),
{
    native.env(key, value);
}

} // verus!
