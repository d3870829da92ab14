//! Shell scripts as commands, and the environment that a script leaves
//! behind.

use crate::base::{CommandBase, SetupError, SetupErrorWrapper};
use crate::dump::{bindings_in, first_undecodable, lines_of, parse};
use crate::exe::{Command, CommandErrorWrapper, CommandView, EnvModifications, Exe};
use crate::fs;
use crate::ordered_map::bound_in_order;
use crate::sync::RawOutput;
use crate::text::utf8_failure;
use vstd::prelude::*;
use vstd::string::StringExecFns;
use vstd::string::StringSliceAdditionalSpecFns;

verus! {

/// What can go wrong when a shell script is run.
#[derive(Debug)]
pub enum ShellError {
    /// The command line of the script could not be set up.
    Setup(SetupErrorWrapper),
    /// Running the command line failed.
    Command(CommandErrorWrapper),
    /// Reading or writing something failed.
    Io(std::io::Error),
    /// Output that should have been text was not UTF-8.
    Utf8(core::str::Utf8Error),
}

impl From<SetupErrorWrapper> for ShellError {
    fn from(error: SetupErrorWrapper) -> (wrapped: ShellError) {
        ShellError::Setup(error)
    }
}

impl vstd::std_specs::convert::FromSpecImpl<SetupErrorWrapper> for ShellError {
    open spec fn obeys_from_spec() -> bool {
        true
    }

    open spec fn from_spec(error: SetupErrorWrapper) -> ShellError {
        ShellError::Setup(error)
    }
}

impl From<CommandErrorWrapper> for ShellError {
    fn from(error: CommandErrorWrapper) -> (wrapped: ShellError) {
        ShellError::Command(error)
    }
}

impl vstd::std_specs::convert::FromSpecImpl<CommandErrorWrapper> for ShellError {
    open spec fn obeys_from_spec() -> bool {
        true
    }

    open spec fn from_spec(error: CommandErrorWrapper) -> ShellError {
        ShellError::Command(error)
    }
}

impl From<std::io::Error> for ShellError {
    fn from(error: std::io::Error) -> (wrapped: ShellError) {
        ShellError::Io(error)
    }
}

impl vstd::std_specs::convert::FromSpecImpl<std::io::Error> for ShellError {
    open spec fn obeys_from_spec() -> bool {
        true
    }

    open spec fn from_spec(error: std::io::Error) -> ShellError {
        ShellError::Io(error)
    }
}

impl From<core::str::Utf8Error> for ShellError {
    fn from(error: core::str::Utf8Error) -> (wrapped: ShellError) {
        ShellError::Utf8(error)
    }
}

impl vstd::std_specs::convert::FromSpecImpl<core::str::Utf8Error> for ShellError {
    open spec fn obeys_from_spec() -> bool {
        true
    }

    open spec fn from_spec(error: core::str::Utf8Error) -> ShellError {
        ShellError::Utf8(error)
    }
}

impl ShellError {
    /// Attaches a description of the stage that failed.
    pub fn with_context(self, context: String) -> (wrapped: ShellErrorWrapper)
        ensures
            wrapped == (ShellErrorWrapper { context, error: self }),
    {
        ShellErrorWrapper { context, error: self }
    }
}

/// A [`ShellError`] together with the stage that failed.
#[derive(Debug)]
pub struct ShellErrorWrapper {
    /// The stage that failed.
    pub context: String,
    /// The underlying error.
    pub error: ShellError,
}

impl ShellErrorWrapper {
    /// This is the failure `error` at the stage `context`.
    pub open spec fn reports(self, error: ShellError, context: Seq<char>) -> bool {
        self.error == error && self.context@ == context
    }
}

/// The text of a shell script, which becomes a script once it has been
/// written to a file.
#[derive(Debug, Clone)]
pub struct ShellSource {
    pub contents: Vec<u8>,
}

impl ShellSource {
    /// The script that this source has become, given how writing it to a
    /// file of its own went: `written` holds the path of that file.
    pub fn into_script(self, written: Result<String, std::io::Error>) -> (script: Result<
        ShellScript,
        ShellError,
    >)
        ensures
            written matches Ok(path) ==> script == Ok::<ShellScript, ShellError>(
                ShellScript { script_path: Exe(fs::File(path)) },
            ),
            written matches Err(error) ==> script == Err::<ShellScript, ShellError>(
                ShellError::Io(error),
            ),
    {
        match written {
            Ok(path) => Ok(ShellScript { script_path: Exe(fs::File(path)) }),
            Err(error) => Err(ShellError::Io(error)),
        }
    }
}

/// A shell script on disk.
#[derive(Debug, Clone)]
pub struct ShellScript {
    pub script_path: Exe,
}

impl ShellScript {
    /// Has this script run on the program and the arguments of `base`.
    pub fn with_command(self, base: Command) -> (invocation: ShellScriptInvocation)
        ensures
            invocation == (ShellScriptInvocation { script: self, base }),
    {
        ShellScriptInvocation { script: self, base }
    }
}

/// A shell script together with the command line that it is to run on.
#[derive(Debug, Clone)]
pub struct ShellScriptInvocation {
    pub script: ShellScript,
    pub base: Command,
}

impl CommandBase for ShellScriptInvocation {
    /// The script has a path.
    open spec fn can_set_up(&self) -> bool {
        !self.script.script_path.is_empty()
    }

    /// The command line is always set up: it runs `sh` on the script,
    /// followed by the program of `base`, if it names one, and by its
    /// arguments.
    open spec fn sets_up(self, made: Result<Command, SetupError>) -> bool {
        made matches Ok(command) && command@ == self.base@.unshift_shell_script(
            self.script.script_path@,
        )
    }

    /// Sets up the command line that has `sh` run the script.
    fn setup_command(self) -> (made: Result<Command, SetupError>) {
        let ShellScriptInvocation { script, base } = self;
        let mut base = base;
        base.unshift_shell_script(script.script_path);
        Ok(base)
    }
}

/// What is added to a script so that it ends by printing its environment:
/// the text `\n\nexec env`, as bytes. `exec` has `env` take the place of the
/// shell, so what is printed is the environment as the script left it.
pub open spec fn env_trailer() -> Seq<u8> {
    "\n\nexec env".spec_bytes()
}

/// A request for the environment that a shell script leaves behind.
#[derive(Debug, Clone)]
pub struct EnvAfterScript {
    pub source: ShellSource,
}

impl EnvAfterScript {
    /// The script followed by [`env_trailer`].
    pub fn into_source(self) -> (source: ShellSource)
        ensures
            source.contents@ == self.source.contents@ + env_trailer(),
    {
        let EnvAfterScript { source: ShellSource { contents } } = self;
        let mut contents = contents;
        let trailer = "\n\nexec env".as_bytes();
        let mut index: usize = 0;
        while index < trailer.len()
            invariant
                index <= trailer@.len(),
                trailer@ == env_trailer(),
                contents@ == self.source.contents@ + trailer@.subrange(0, index as int),
            decreases trailer@.len() - index,
        {
            contents.push(trailer[index]);
            index += 1;
        }
        ShellSource { contents }
    }

    /// The command line that runs the script, given how writing the script
    /// went: a failure to write it is passed on with its stage, and a
    /// script that was written is run by `sh` with no further argument.
    pub fn into_command(scripted: Result<ShellScript, ShellError>) -> (command: Result<
        Command,
        ShellErrorWrapper,
    >)
        requires
            scripted matches Ok(script) ==> !script.script_path.is_empty(),
        ensures
            scripted matches Ok(script) ==> (command matches Ok(line) && line@ == (CommandView {
                exe: "sh"@,
                wd: None,
                argv: seq![script.script_path@],
                env: Seq::empty(),
            })),
            scripted matches Err(error) ==> (command matches Err(failure) && failure.reports(
                error,
                "when writing env script to file"@,
            )),
    {
        let script = match scripted {
            Ok(script) => script,
            Err(error) => {
                return Err(error.with_context(String::from_str("when writing env script to file")));
            },
        };
        let invocation = script.with_command(Command::default());
        match invocation.setup_command() {
            Ok(line) => {
                Ok(line)
            },
            Err(error) => Err(
                ShellError::Setup(
                    error.with_context(String::from_str("when setting up the shell command")),
                ).with_context(String::from_str("when setting up the shell command, again")),
            ),
        }
    }

    /// What the script printed, given how running its command line went.
    pub fn extract_stdout(invoked: Result<RawOutput, CommandErrorWrapper>) -> (stdout: Result<
        Vec<u8>,
        ShellErrorWrapper,
    >)
        ensures
            invoked matches Ok(output) ==> stdout == Ok::<Vec<u8>, ShellErrorWrapper>(
                output.stdout,
            ),
            invoked matches Err(error) ==> (stdout matches Err(failure) && failure.reports(
                ShellError::Command(error),
                "when extracting env bindings"@,
            )),
    {
        match invoked {
            Ok(output) => Ok(output.stdout),
            Err(error) => Err(
                ShellError::Command(error).with_context(
                    String::from_str("when extracting env bindings"),
                ),
            ),
        }
    }

    /// The variables that the script left behind, read from what it
    /// printed: each line that holds a `=` sets the name before its first
    /// `=` to what follows it, and a line without one is passed over. A
    /// name that is set more than once keeps its first place and its last
    /// value. Fails at the first line that is not UTF-8, with the decoding
    /// error of that line as [`ShellError::Utf8`]: the bytes are at hand
    /// and nothing is read here, so this is no failure of I/O.
    pub fn extract_env_bindings(stdout: Vec<u8>) -> (bindings: Result<
        EnvModifications,
        ShellErrorWrapper,
    >)
        ensures
            first_undecodable(lines_of(stdout@)) is None ==> (bindings matches Ok(env) && env.wf()
                && env@ == bound_in_order(bindings_in(lines_of(stdout@)))),
            first_undecodable(lines_of(stdout@)) matches Some(line) ==> (bindings matches Err(
                failure,
            ) && failure.reports(
                ShellError::Utf8(utf8_failure(line)),
                "when extracting stdout line"@,
            )),
    {
        match parse(stdout.as_slice()) {
            Ok(env) => Ok(env),
            Err(error) => Err(
                ShellError::Utf8(error).with_context(
                    String::from_str("when extracting stdout line"),
                ),
            ),
        }
    }
}

} // verus!
