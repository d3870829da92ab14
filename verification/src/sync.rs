//! Running a command to its end and collecting everything it wrote.

use crate::exe::{Command, CommandError, CommandErrorWrapper, ExitStatus};
use crate::text::{from_utf8, utf8_failure};
use vstd::prelude::*;
use vstd::string::StringExecFns;
use vstd::utf8::{decode_utf8, encode_utf8, valid_utf8};

verus! {

/// What a process left behind when it ended: how it ended, and all that it
/// wrote to its two output streams.
#[derive(Debug, Clone)]
pub struct Output {
    /// How the process ended.
    pub status: ExitStatus,
    /// All that it wrote to its standard output.
    pub stdout: Vec<u8>,
    /// All that it wrote to its standard error.
    pub stderr: Vec<u8>,
}

/// The complete output of a process that ended well, as bytes.
#[derive(Debug, Clone)]
pub struct RawOutput {
    pub stdout: Vec<u8>,
    pub stderr: Vec<u8>,
}

/// The complete output of a process that ended well, as text.
#[derive(Debug, Clone)]
pub struct DecodedOutput {
    pub stdout: String,
    pub stderr: String,
}

/// How `{:?}` prints a [`RawOutput`] that holds these bytes.
pub uninterp spec fn raw_output_debug(stdout: Seq<u8>, stderr: Seq<u8>) -> Seq<char>;

/// How `{:?}` prints a [`DecodedOutput`] that holds this text.
pub uninterp spec fn decoded_output_debug(stdout: Seq<char>, stderr: Seq<char>) -> Seq<char>;

/// `format!` with `{:?}`, on the `Debug` that [`RawOutput`] derives.
/// Trusted: the text depends on the bytes of the two streams alone.
#[verifier::external_body]
fn debug_raw_output(output: &RawOutput) -> (text: String)
    ensures
        text@ == raw_output_debug(output.stdout@, output.stderr@),
{
    format!("{:?}", output)
}

/// `format!` with `{:?}`, on the `Debug` that [`DecodedOutput`] derives.
/// Trusted: the text depends on the text of the two streams alone.
#[verifier::external_body]
fn debug_decoded_output(output: &DecodedOutput) -> (text: String)
    ensures
        text@ == decoded_output_debug(output.stdout@, output.stderr@),
{
    format!("{:?}", output)
}

/// The stage description of a failure to decode the stream named `stream`
/// of an output that is shown as `shown`.
pub open spec fn decode_stage(stream: Seq<char>, shown: Seq<char>) -> Seq<char> {
    "when decoding "@ + stream + " from "@ + shown
}

/// The stage description of a process that ended badly after writing an
/// output that is shown as `shown`, which is its text where `decoded` and
/// its bytes where not.
pub open spec fn exit_stage(decoded: bool, shown: Seq<char>) -> Seq<char> {
    "when analyzing exit status for output "@ + if decoded {
        "(utf-8 decoded) "@
    } else {
        "(could not decode) "@
    } + shown
}

/// The stage description of a failure to decode `stream` of this output.
pub open spec fn decode_context(stream: Seq<char>, stdout: Seq<u8>, stderr: Seq<u8>) -> Seq<char> {
    decode_stage(stream, raw_output_debug(stdout, stderr))
}

/// The stage description of a process that ended badly after writing this
/// output: the output is shown as text where both streams are UTF-8, and as
/// bytes where they are not.
pub open spec fn exit_context(stdout: Seq<u8>, stderr: Seq<u8>) -> Seq<char> {
    if valid_utf8(stdout) && valid_utf8(stderr) {
        exit_stage(true, decoded_output_debug(decode_utf8(stdout), decode_utf8(stderr)))
    } else {
        exit_stage(false, raw_output_debug(stdout, stderr))
    }
}

/// Writes out the stage description of a failure to decode a stream.
pub fn describe_decode_stage(stream: &str, shown: &str) -> (stage: String)
    ensures
        stage@ == decode_stage(stream@, shown@),
{
    String::from_str("when decoding ").concat(stream).concat(" from ").concat(shown)
}

/// Writes out the stage description of a process that ended badly.
pub fn describe_exit_stage(decoded: bool, shown: &str) -> (stage: String)
    ensures
        stage@ == exit_stage(decoded, shown@),
{
    let marked = if decoded {
        String::from_str("(utf-8 decoded) ")
    } else {
        String::from_str("(could not decode) ")
    };
    String::from_str("when analyzing exit status for output ").concat(marked.as_str()).concat(shown)
}

/// Which of the two streams failed to decode, and how.
enum Undecodable {
    Stdout(core::str::Utf8Error),
    Stderr(core::str::Utf8Error),
}

impl RawOutput {
    /// Both streams are UTF-8.
    pub open spec fn is_text(&self) -> bool {
        valid_utf8(self.stdout@) && valid_utf8(self.stderr@)
    }

    /// Decodes the two streams, the standard output first.
    fn decode_streams(&self) -> (decoded: Result<DecodedOutput, Undecodable>)
        ensures
            self.is_text() ==> decoded is Ok,
            decoded matches Ok(text) ==> self.is_text() && text.stdout@ == decode_utf8(
                self.stdout@,
            ) && text.stderr@ == decode_utf8(self.stderr@),
            !valid_utf8(self.stdout@) ==> decoded == Err::<DecodedOutput, Undecodable>(
                Undecodable::Stdout(utf8_failure(self.stdout@)),
            ),
            valid_utf8(self.stdout@) && !valid_utf8(self.stderr@) ==> decoded == Err::<
                DecodedOutput,
                Undecodable,
            >(Undecodable::Stderr(utf8_failure(self.stderr@))),
    {
        let stdout = match from_utf8(self.stdout.as_slice()) {
            Ok(text) => String::from_str(text),
            Err(error) => {
                return Err(Undecodable::Stdout(error));
            },
        };
        let stderr = match from_utf8(self.stderr.as_slice()) {
            Ok(text) => String::from_str(text),
            Err(error) => {
                return Err(Undecodable::Stderr(error));
            },
        };
        Ok(DecodedOutput { stdout, stderr })
    }

    /// Keeps the output of a process that ended well, and fails for one that
    /// did not, with the command and with the output as far as it can be
    /// shown.
    pub fn extract(command: Command, output: Output) -> (extracted: Result<
        RawOutput,
        CommandErrorWrapper,
    >)
        requires
            output.status.is_classifiable(),
        ensures
            output.status.outcome() is Ok ==> extracted == Ok::<RawOutput, CommandErrorWrapper>(
                RawOutput { stdout: output.stdout, stderr: output.stderr },
            ),
            output.status.outcome() matches Err(error) ==> (extracted matches Err(failure)
                && failure.reports(command, error, exit_context(output.stdout@, output.stderr@))),
    {
        let Output { status, stdout, stderr } = output;
        let raw = RawOutput { stdout, stderr };
        match CommandError::analyze_exit_status(status) {
            Ok(()) => Ok(raw),
            Err(error) => {
                let context = match raw.decode_streams() {
                    Ok(text) => describe_exit_stage(true, debug_decoded_output(&text).as_str()),
                    Err(_) => describe_exit_stage(false, debug_raw_output(&raw).as_str()),
                };
                Err(error.command_with_context(command, context))
            },
        }
    }

    /// The text of the two streams. Fails for the first of them, the
    /// standard output before the standard error, that is not UTF-8.
    pub fn decode(self, command: Command) -> (decoded: Result<DecodedOutput, CommandErrorWrapper>)
        ensures
            self.is_text() ==> (decoded matches Ok(text) && text.stdout@ == decode_utf8(
                self.stdout@,
            ) && text.stderr@ == decode_utf8(self.stderr@)),
            !valid_utf8(self.stdout@) ==> (decoded matches Err(failure) && failure.reports(
                command,
                CommandError::Utf8(utf8_failure(self.stdout@)),
                decode_context("stdout"@, self.stdout@, self.stderr@),
            )),
            valid_utf8(self.stdout@) && !valid_utf8(self.stderr@) ==> (decoded matches Err(failure)
                && failure.reports(
                command,
                CommandError::Utf8(utf8_failure(self.stderr@)),
                decode_context("stderr"@, self.stdout@, self.stderr@),
            )),
    {
        match self.decode_streams() {
            Ok(text) => Ok(text),
            Err(Undecodable::Stdout(error)) => {
                let context = describe_decode_stage("stdout", debug_raw_output(&self).as_str());
                Err(CommandError::Utf8(error).command_with_context(command, context))
            },
            Err(Undecodable::Stderr(error)) => {
                let context = describe_decode_stage("stderr", debug_raw_output(&self).as_str());
                Err(CommandError::Utf8(error).command_with_context(command, context))
            },
        }
    }
}

/// What a synchronous invocation of `command` returns, given what running it
/// to its end gave: a failure to run it is reported with the command, and a
/// run that ended is handed to [`RawOutput::extract`].
pub fn conclude(command: Command, ran: Result<Output, std::io::Error>) -> (concluded: Result<
    RawOutput,
    CommandErrorWrapper,
>)
    requires
        ran matches Ok(output) ==> output.status.is_classifiable(),
    ensures
        ran matches Err(error) ==> (concluded matches Err(failure) && failure.reports(
            command,
            CommandError::Io(error),
            "waiting for output"@,
        )),
        ran matches Ok(output) ==> (output.status.outcome() is Ok ==> concluded == Ok::<
            RawOutput,
            CommandErrorWrapper,
        >(RawOutput { stdout: output.stdout, stderr: output.stderr })),
        ran matches Ok(output) ==> (output.status.outcome() matches Err(error) ==> (
        concluded matches Err(failure) && failure.reports(
            command,
            error,
            exit_context(output.stdout@, output.stderr@),
        ))),
{
    match ran {
        Ok(output) => RawOutput::extract(command, output),
        Err(error) => Err(
            CommandError::Io(error).command_with_context(
                command,
                String::from_str("waiting for output"),
            ),
        ),
    }
}

/// Output that is the UTF-8 encoding of some text is text, and decodes to
/// the text that it encodes.
pub proof fn lemma_decode_round_trip(raw: RawOutput, stdout: Seq<char>, stderr: Seq<char>)
    requires
        raw.stdout@ == encode_utf8(stdout),
        raw.stderr@ == encode_utf8(stderr),
    ensures
        raw.is_text(),
        decode_utf8(raw.stdout@) == stdout,
        decode_utf8(raw.stderr@) == stderr,
{
    vstd::utf8::encode_utf8_valid_utf8(stdout);
    vstd::utf8::encode_utf8_valid_utf8(stderr);
    vstd::utf8::encode_utf8_decode_utf8(stdout);
    vstd::utf8::encode_utf8_decode_utf8(stderr);
}

} // verus!
