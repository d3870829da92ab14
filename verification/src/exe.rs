//! The command model: what to run, where, with which arguments and which
//! changes to the environment, and how a finished run is classified.

use crate::fs;
use crate::native::{launch_of, native_arg, native_current_dir, native_env, native_new, Launch};
use crate::ordered_map::{
    as_map, bound_in_order, entries_of, keys_distinct, lemma_bound_in_order_keys_distinct,
    lemma_with_binding_keeps_keys_distinct, map_clone, map_get_index, map_insert, map_len,
    map_new, with_binding,
};
use crate::signal::{
    is_term_signal, is_termination, lemma_termination_signals_are_named, name_of, signal_text,
    text_of,
};
use async_process::Command as NativeCommand;
use indexmap::IndexMap;
use vstd::prelude::*;
use vstd::string::StringExecFns;

verus! {

/// The program to run: an absolute path, or a name that is looked up on the
/// search path.
#[derive(Debug)]
pub struct Exe(pub fs::File);

impl Clone for Exe {
    fn clone(&self) -> (copy: Exe)
        ensures
            copy == *self,
    {
        Exe(self.0.clone())
    }
}

impl View for Exe {
    type V = Seq<char>;

    open spec fn view(&self) -> Seq<char> {
        self.0@
    }
}

impl From<String> for Exe {
    fn from(value: String) -> (exe: Exe) {
        Exe(fs::File(value))
    }
}

impl vstd::std_specs::convert::FromSpecImpl<String> for Exe {
    open spec fn obeys_from_spec() -> bool {
        true
    }

    open spec fn from_spec(value: String) -> Exe {
        Exe(fs::File(value))
    }
}

impl Default for Exe {
    /// The empty program name, which cannot be run.
    fn default() -> (exe: Exe)
        ensures
            exe@ == Seq::<char>::empty(),
    {
        Exe(fs::File(String::new()))
    }
}

impl Exe {
    /// No program has been named.
    pub open spec fn spec_is_empty(&self) -> bool {
        self@.len() == 0
    }

    /// Whether no program has been named.
    #[verifier::when_used_as_spec(spec_is_empty)]
    pub fn is_empty(&self) -> (empty: bool)
        ensures
            empty == self.spec_is_empty(),
    {
        self.0.0.as_str().is_empty()
    }

    /// Gives up the wrapper and returns the path text.
    pub fn into_path_buf(self) -> (path: String)
        ensures
            path == self.0.0,
    {
        self.0.into_path_buf()
    }
}

/// The arguments handed to the program, in order. They are passed as separate
/// tokens and never parsed again by a shell.
#[derive(Debug)]
pub struct Argv(pub Vec<String>);

impl Clone for Argv {
    fn clone(&self) -> (copy: Argv)
        ensures
            copy@ == self@,
    {
        Argv(self.0.clone())
    }
}

impl View for Argv {
    type V = Seq<Seq<char>>;

    open spec fn view(&self) -> Seq<Seq<char>> {
        Seq::new(self.0@.len(), |i: int| self.0@[i]@)
    }
}

impl From<Vec<String>> for Argv {
    fn from(value: Vec<String>) -> (argv: Argv) {
        Argv(value)
    }
}

impl vstd::std_specs::convert::FromSpecImpl<Vec<String>> for Argv {
    open spec fn obeys_from_spec() -> bool {
        true
    }

    open spec fn from_spec(value: Vec<String>) -> Argv {
        Argv(value)
    }
}

impl Default for Argv {
    /// No arguments.
    fn default() -> (argv: Argv)
        ensures
            argv@ == Seq::<Seq<char>>::empty(),
    {
        Argv(Vec::new())
    }
}

impl Argv {
    /// Puts `leftmost_arg` in front of the arguments.
    pub fn unshift(&mut self, leftmost_arg: String)
        ensures
            final(self)@ == seq![leftmost_arg@] + old(self)@,
    {
        self.0.insert(0, leftmost_arg);
    }

    /// The arguments as they are re-exposed to a wrapping command: nothing
    /// when there are none, else the separator `--` followed by them all.
    pub fn trailing_args(self) -> (trailing: Argv)
        ensures
            trailing@ == if self@.len() == 0 {
                Seq::<Seq<char>>::empty()
            } else {
                seq!["--"@] + self@
            },
    {
        let mut argv = self;
        if argv.0.len() != 0 {
            argv.unshift(String::from_str("--"));
        }
        argv
    }
}

/// The text of each pair of `pairs`.
pub open spec fn pairs_view(pairs: Seq<(String, String)>) -> Seq<(Seq<char>, Seq<char>)> {
    Seq::new(pairs.len(), |i: int| (pairs[i].0@, pairs[i].1@))
}

/// Variables to set in the child's environment, on top of what it inherits.
/// Each name occurs once; the entries keep the order in which their names
/// were first set.
#[derive(Debug)]
pub struct EnvModifications(pub IndexMap<String, String>);

impl Clone for EnvModifications {
    fn clone(&self) -> (copy: EnvModifications)
        ensures
            copy@ == self@,
    {
        EnvModifications(map_clone(&self.0))
    }
}

impl View for EnvModifications {
    type V = Seq<(Seq<char>, Seq<char>)>;

    open spec fn view(&self) -> Seq<(Seq<char>, Seq<char>)> {
        entries_of(self.0)
    }
}

impl From<Vec<(String, String)>> for EnvModifications {
    /// Sets the variables of `pairs` one after the other, as
    /// [`EnvModifications::from_pairs`] does.
    fn from(pairs: Vec<(String, String)>) -> (env: EnvModifications)
        ensures
            env@ == bound_in_order(pairs_view(pairs@)),
            env.wf(),
    {
        EnvModifications::from_pairs(pairs)
    }
}

impl vstd::std_specs::convert::FromSpecImpl<Vec<(String, String)>> for EnvModifications {
    /// The overlay is known by its entries alone, which `from` states
    /// itself; there is no one value that it must return.
    open spec fn obeys_from_spec() -> bool {
        false
    }

    open spec fn from_spec(pairs: Vec<(String, String)>) -> EnvModifications {
        arbitrary()
    }
}

impl Default for EnvModifications {
    /// No variables.
    fn default() -> (env: EnvModifications)
        ensures
            env@ == Seq::<(Seq<char>, Seq<char>)>::empty(),
            env.wf(),
    {
        EnvModifications(map_new())
    }
}

impl EnvModifications {
    /// Each name occurs once.
    pub open spec fn wf(&self) -> bool {
        keys_distinct(self@)
    }

    /// Sets the variable `name` to `value`. A name that is already set
    /// keeps its place and takes the new value; a new name goes last.
    pub fn set(&mut self, name: String, value: String)
        ensures
            final(self)@ == with_binding(old(self)@, name@, value@),
            old(self).wf() ==> final(self).wf(),
    {
        proof {
            if self.wf() {
                lemma_with_binding_keeps_keys_distinct(self@, name@, value@);
            }
        }
        let _ = map_insert(&mut self.0, name, value);
    }

    /// Sets the variables of `pairs` one after the other, so that of two
    /// values for one name the later one stays.
    pub fn from_pairs(pairs: Vec<(String, String)>) -> (env: EnvModifications)
        ensures
            env@ == bound_in_order(pairs_view(pairs@)),
            env.wf(),
    {
        let mut env = EnvModifications(map_new());
        let mut index: usize = 0;
        while index < pairs.len()
            invariant
                index <= pairs.len(),
                env@ == bound_in_order(pairs_view(pairs@).take(index as int)),
            decreases pairs.len() - index,
        {
            let name = pairs[index].0.clone();
            let value = pairs[index].1.clone();
            proof {
                let taken = pairs_view(pairs@).take(index as int + 1);
                assert(taken.drop_last() =~= pairs_view(pairs@).take(index as int));
            }
            env.set(name, value);
            index += 1;
        }
        proof {
            assert(pairs_view(pairs@).take(index as int) =~= pairs_view(pairs@));
            lemma_bound_in_order_keys_distinct(pairs_view(pairs@));
        }
        env
    }
}

/// What a [`Command`] asks for, as plain text.
pub ghost struct CommandView {
    pub exe: Seq<char>,
    pub wd: Option<Seq<char>>,
    pub argv: Seq<Seq<char>>,
    pub env: Seq<(Seq<char>, Seq<char>)>,
}

impl CommandView {
    /// What the launch descriptor of this command is told: the variables
    /// of the overlay are set on top of the inherited environment.
    pub open spec fn launch(self) -> Launch {
        Launch {
            program: self.exe,
            dir: self.wd,
            args: self.argv,
            env: as_map(self.env),
            inherits_env: true,
        }
    }

    /// The command that runs `new_exe` on this one: the old program, if one
    /// was named, becomes the first argument, ahead of the old arguments.
    pub open spec fn unshift_new_exe(self, new_exe: Seq<char>) -> CommandView {
        CommandView {
            exe: new_exe,
            argv: if self.exe.len() == 0 {
                self.argv
            } else {
                seq![self.exe] + self.argv
            },
            ..self
        }
    }

    /// The command that has `sh` run the script at `script_path` on this one.
    pub open spec fn unshift_shell_script(self, script_path: Seq<char>) -> CommandView {
        self.unshift_new_exe(script_path).unshift_new_exe("sh"@)
    }
}

/// A request to run a subprocess.
#[derive(Debug)]
pub struct Command {
    /// The program, absolute or relative to the entries of the search path.
    pub exe: Exe,
    /// The working directory of the child; without one it inherits the
    /// caller's.
    pub wd: Option<fs::Directory>,
    /// The arguments, unquoted.
    pub argv: Argv,
    /// Variables to set in the child's environment, which is otherwise
    /// inherited.
    pub env: EnvModifications,
}

impl View for Command {
    type V = CommandView;

    open spec fn view(&self) -> CommandView {
        CommandView {
            exe: self.exe@,
            wd: match self.wd {
                Some(wd) => Some(wd@),
                None => None,
            },
            argv: self.argv@,
            env: self.env@,
        }
    }
}

impl Clone for Command {
    fn clone(&self) -> (copy: Command)
        ensures
            copy@ == self@,
    {
        Command {
            exe: self.exe.clone(),
            wd: match &self.wd {
                Some(wd) => Some(wd.clone()),
                None => None,
            },
            argv: self.argv.clone(),
            env: self.env.clone(),
        }
    }
}

impl Default for Command {
    /// The empty command. It names no program, so it cannot be run as it is.
    fn default() -> (command: Command)
        ensures
            command@ == (CommandView {
                exe: Seq::empty(),
                wd: None,
                argv: Seq::empty(),
                env: Seq::empty(),
            }),
    {
        Command {
            exe: Exe::default(),
            wd: None,
            argv: Argv::default(),
            env: EnvModifications::default(),
        }
    }
}

impl Command {
    /// Builds the descriptor that the process runtime launches the child
    /// from: the program, then the working directory if there is one, the
    /// arguments in order, and each variable of the overlay.
    pub fn command(self) -> (native: NativeCommand)
        requires
            !self.exe.is_empty(),
        ensures
            launch_of(native) == self@.launch(),
    {
        let mut native = native_new(self.exe.0.0.as_str());
        match &self.wd {
            Some(wd) => {
                native_current_dir(&mut native, wd.0.as_str());
            },
            None => {},
        }
        let argc = self.argv.0.len();
        let mut index: usize = 0;
        assert(self.argv@.take(0) =~= Seq::empty());
        while index < argc
            invariant
                argc == self.argv.0.len(),
                index <= argc,
                launch_of(native) == (Launch {
                    args: self.argv@.take(index as int),
                    env: Map::empty(),
                    ..self@.launch()
                }),
            decreases argc - index,
        {
            native_arg(&mut native, self.argv.0[index].as_str());
            assert(self.argv@.take(index as int).push(self.argv@[index as int])
                =~= self.argv@.take(index as int + 1));
            index += 1;
        }
        assert(self.argv@.take(index as int) =~= self.argv@);
        let envc = map_len(&self.env.0);
        let mut index: usize = 0;
        while index < envc
            invariant
                envc == self.env@.len(),
                index <= envc,
                launch_of(native) == (Launch {
                    env: as_map(self.env@.take(index as int)),
                    ..self@.launch()
                }),
            decreases envc - index,
        {
            match map_get_index(&self.env.0, index) {
                Some((name, value)) => {
                    native_env(&mut native, name.as_str(), value.as_str());
                },
                None => {},
            }
            assert(self.env@.take(index as int + 1).drop_last() =~= self.env@.take(index as int));
            index += 1;
        }
        assert(self.env@.take(index as int) =~= self.env@);
        native
    }

    /// Makes `new_exe` the program of this command. The old program, if one
    /// was named, becomes the first argument, ahead of the old arguments.
    pub fn unshift_new_exe(&mut self, new_exe: Exe)
        requires
            !new_exe.is_empty(),
        ensures
            final(self)@ == old(self)@.unshift_new_exe(new_exe@),
    {
        if !self.exe.is_empty() {
            let old_exe = self.exe.0.0.clone();
            self.argv.unshift(old_exe);
        }
        self.exe = new_exe;
    }

    /// Makes this command run `sh` on the script at `script_path`, with the
    /// old program and arguments passed through to the script.
    pub fn unshift_shell_script(&mut self, script_path: Exe)
        requires
            !script_path.is_empty(),
        ensures
            final(self)@ == old(self)@.unshift_shell_script(script_path@),
    {
        self.unshift_new_exe(script_path);
        let sh = Exe(fs::File(String::from_str("sh")));
        proof {
            reveal_strlit("sh");
        }
        self.unshift_new_exe(sh);
    }
}

/// Wrapping a bare command, one that names a program and has no argument and
/// no variable, in the interpreter `sh` gives the command that runs `sh` with
/// the program as its only argument.
pub proof fn lemma_interpreter_over_bare_command(command: CommandView)
    requires
        command.exe.len() > 0,
        command.argv.len() == 0,
        command.env.len() == 0,
    ensures
        command.unshift_new_exe("sh"@) == (CommandView {
            exe: "sh"@,
            argv: seq![command.exe],
            ..command
        }),
{
}

/// Having `sh` run a script on a command gives the command that runs `sh`
/// with the script as its first argument, followed by the program of the
/// command, if it names one, and by its arguments.
pub proof fn lemma_shell_script_over_command(command: CommandView, script_path: Seq<char>)
    requires
        script_path.len() > 0,
    ensures
        command.unshift_shell_script(script_path) == (CommandView {
            exe: "sh"@,
            argv: seq![script_path] + if command.exe.len() == 0 {
                command.argv
            } else {
                seq![command.exe] + command.argv
            },
            ..command
        }),
{
}

/// `std::io::Error`, which is carried along and never looked into.
#[verifier::external_type_specification]
#[verifier::external_body]
pub struct ExIoError(std::io::Error);

/// How a process ended, as the operating system reports it: with an exit
/// code, or with the signal that ended it.
#[derive(Debug, Clone, Copy)]
pub struct ExitStatus {
    /// The exit code, where the process exited by itself.
    pub code: Option<i32>,
    /// The signal, where one ended the process.
    pub signal: Option<i32>,
}

impl ExitStatus {
    /// The status tells how the process ended: it has an exit code or a
    /// signal.
    pub open spec fn spec_is_classifiable(&self) -> bool {
        self.code is Some || self.signal is Some
    }

    /// Whether [`CommandError::analyze_exit_status`] accepts this status.
    #[verifier::when_used_as_spec(spec_is_classifiable)]
    pub fn is_classifiable(&self) -> (classifiable: bool)
        ensures
            classifiable == self.spec_is_classifiable(),
    {
        self.code.is_some() || self.signal.is_some()
    }

    /// What the status amounts to: success for the exit code 0, the code
    /// for any other, and for a signal its number and name, told apart by
    /// whether it is one that commonly requests a shutdown. A signal that
    /// the table of names does not list is reported with the text
    /// [`crate::signal::unnamed`] in the place of its name.
    pub open spec fn outcome(self) -> Result<(), CommandError> {
        match self.code {
            Some(code) => if code == 0 {
                Ok(())
            } else {
                Err(CommandError::NonZeroExit(code))
            },
            None => {
                let signal = self.signal->0;
                if is_termination(signal) {
                    Err(CommandError::ProcessTerminated(signal, text_of(signal)))
                } else {
                    Err(CommandError::ProcessKilled(signal, text_of(signal)))
                }
            },
        }
    }
}

/// What can go wrong when a command line is run.
#[derive(Debug)]
pub enum CommandError {
    /// The process exited with a status other than 0.
    NonZeroExit(i32),
    /// A signal that requests a shutdown ended the process.
    ProcessTerminated(i32, &'static str),
    /// Any other signal ended the process.
    ProcessKilled(i32, &'static str),
    /// Starting the process or talking to it failed.
    Io(std::io::Error),
    /// Its output was not UTF-8.
    Utf8(core::str::Utf8Error),
}

impl From<std::io::Error> for CommandError {
    fn from(error: std::io::Error) -> (wrapped: CommandError) {
        CommandError::Io(error)
    }
}

impl vstd::std_specs::convert::FromSpecImpl<std::io::Error> for CommandError {
    open spec fn obeys_from_spec() -> bool {
        true
    }

    open spec fn from_spec(error: std::io::Error) -> CommandError {
        CommandError::Io(error)
    }
}

impl From<core::str::Utf8Error> for CommandError {
    fn from(error: core::str::Utf8Error) -> (wrapped: CommandError) {
        CommandError::Utf8(error)
    }
}

impl vstd::std_specs::convert::FromSpecImpl<core::str::Utf8Error> for CommandError {
    open spec fn obeys_from_spec() -> bool {
        true
    }

    open spec fn from_spec(error: core::str::Utf8Error) -> CommandError {
        CommandError::Utf8(error)
    }
}

impl CommandError {
    /// Fails if the process ended in any way but with the exit code 0.
    pub fn analyze_exit_status(status: ExitStatus) -> (analyzed: Result<(), CommandError>)
        requires
            status.is_classifiable(),
        ensures
            analyzed == status.outcome(),
    {
        match status.code {
            Some(code) => {
                if code == 0 {
                    Ok(())
                } else {
                    Err(CommandError::NonZeroExit(code))
                }
            },
            None => {
                let signal = status.signal.unwrap();
                let name = signal_text(signal);
                if is_term_signal(signal) {
                    Err(CommandError::ProcessTerminated(signal, name))
                } else {
                    Err(CommandError::ProcessKilled(signal, name))
                }
            },
        }
    }

    /// Attaches the command that was run and a description of the stage at
    /// which it failed.
    pub fn command_with_context(self, command: Command, context: String) -> (wrapped:
        CommandErrorWrapper)
        ensures
            wrapped == (CommandErrorWrapper { command, context, error: self }),
    {
        CommandErrorWrapper { command, context, error: self }
    }
}

/// A [`CommandError`] together with the command that failed and the stage at
/// which it did.
#[derive(Debug)]
pub struct CommandErrorWrapper {
    /// The command that was being run.
    pub command: Command,
    /// The stage at which it failed.
    pub context: String,
    /// The underlying error.
    pub error: CommandError,
}

/// A [`CommandErrorWrapper`] with its stage as plain text.
pub ghost struct Failure {
    pub command: Command,
    pub error: CommandError,
    pub context: Seq<char>,
}

impl View for CommandErrorWrapper {
    type V = Failure;

    open spec fn view(&self) -> Failure {
        Failure { command: self.command, error: self.error, context: self.context@ }
    }
}

impl CommandErrorWrapper {
    /// This is the failure `error` of `command` at the stage `context`.
    pub open spec fn reports(self, command: Command, error: CommandError, context: Seq<char>) -> bool {
        self@ == (Failure { command, error, context })
    }
}

/// Every status that has an exit code or a signal is classified, and in one
/// way only: the exit code 0 is success and nothing else is, any other code
/// is reported as itself, a signal that requests a shutdown as a termination
/// under its name, and any other signal as a kill, under its name if it has
/// one. No status is reported as a failure of I/O or of decoding.
pub proof fn lemma_classification(status: ExitStatus)
    requires
        status.is_classifiable(),
    ensures
        status.outcome() is Ok <==> status.code == Some(0i32),
        status.code is Some && status.code != Some(0i32) ==> status.outcome() == Err::<
            (),
            CommandError,
        >(CommandError::NonZeroExit(status.code->0)),
        status.code is None && is_termination(status.signal->0) ==> name_of(status.signal->0)
            is Some && status.outcome() == Err::<(), CommandError>(
            CommandError::ProcessTerminated(status.signal->0, name_of(status.signal->0)->0),
        ),
        status.code is None && !is_termination(status.signal->0) ==> status.outcome() == Err::<
            (),
            CommandError,
        >(CommandError::ProcessKilled(status.signal->0, text_of(status.signal->0))),
        status.outcome() matches Err(error) ==> error is NonZeroExit || error is ProcessTerminated
            || error is ProcessKilled,
{
    lemma_termination_signals_are_named();
}

/// The classification depends on the exit code and the signal alone.
pub proof fn lemma_classification_is_settled(first: ExitStatus, second: ExitStatus)
    requires
        first.code == second.code,
        first.signal == second.signal,
    ensures
        first.outcome() == second.outcome(),
{
}

} // verus!
