//! Running one command line through the shell and reporting how it went.
//!
//! The process itself is started by the program around this crate. This
//! module says what to start, and turns what the process left behind (its
//! exit status and the bytes of its two output streams) into the one-line
//! result that the user is shown.

use vstd::prelude::*;
use crate::error::LauncherError;

verus! {

/// The longest output stream, in bytes, that is decoded.
///
/// The decoder sizes its buffer at up to three bytes of text per byte of
/// input before it starts, and may reserve as much again; it panics when a
/// size does not fit. Six times this bound fits an `isize` on every
/// target.
pub const MAX_STREAM_LEN: usize = 0x0FFF_FFFF;

/// A process to start: a program and its arguments.
#[derive(Clone, Debug, PartialEq, Eq)]
pub struct Invocation {
    pub program: String,
    pub arguments: Vec<String>,
}

/// The mathematical content of an invocation.
pub struct InvocationView {
    pub program: Seq<char>,
    pub arguments: Seq<Seq<char>>,
}

impl View for Invocation {
    type V = InvocationView;

    open spec fn view(&self) -> InvocationView {
        InvocationView {
            program: self.program@,
            arguments: self.arguments@.map_values(|argument: String| argument@),
        }
    }
}

/// What a finished process left behind.
#[derive(Clone, Debug, PartialEq, Eq)]
pub struct ProcessOutput {
    /// Whether the exit status reports success.
    pub succeeded: bool,
    /// The bytes written to standard output.
    pub stdout: Vec<u8>,
    /// The bytes written to standard error.
    pub stderr: Vec<u8>,
}

/// The outcome of one execution, as shown to the user.
#[derive(Clone, Debug, PartialEq, Eq)]
pub struct ExecutionResult {
    pub succeeded: bool,
    pub message: String,
}

/// A desktop notification: a title and a one-line body.
#[derive(Clone, Debug, PartialEq, Eq)]
pub struct Notification {
    pub title: String,
    pub body: String,
}

/// The text that the Shift_JIS decoder of `encoding_rs` gives for `bytes`,
/// with malformed sequences replaced.
pub uninterp spec fn shift_jis_text(bytes: Seq<u8>) -> Seq<char>;

/// Whether every byte is an ASCII byte.
pub open spec fn all_ascii(bytes: Seq<u8>) -> bool {
    forall|i: int| 0 <= i < bytes.len() ==> bytes[i] < 0x80
}

/// The text that has one character for each byte, of the same value.
pub open spec fn ascii_text(bytes: Seq<u8>) -> Seq<char> {
    Seq::new(bytes.len(), |i: int| bytes[i] as char)
}

/// The invocation that runs `command_line`: the fixed shell, told to take
/// the line as its command. The line is passed on as it is.
pub open spec fn shell_invocation(command_line: Seq<char>) -> InvocationView {
    InvocationView { program: "powershell.exe"@, arguments: seq!["-Command"@, command_line] }
}

/// The stream that is reported: standard output of a process that
/// succeeded, standard error of one that failed.
pub open spec fn reported_stream(output: ProcessOutput) -> Seq<u8> {
    if output.succeeded {
        output.stdout@
    } else {
        output.stderr@
    }
}

/// The words that a message starts with, by outcome.
pub open spec fn prefix_for(succeeded: bool) -> Seq<char> {
    if succeeded {
        "Success: "@
    } else {
        "Failure: "@
    }
}

/// The message for an outcome and the decoded text of its stream.
pub open spec fn message_for(succeeded: bool, text: Seq<char>) -> Seq<char> {
    prefix_for(succeeded) + text
}

impl ExecutionResult {
    /// Whether the message starts with the words for the outcome.
    pub open spec fn prefixed(self) -> bool {
        prefix_for(self.succeeded).is_prefix_of(self.message@)
    }
}

/// Every message for an outcome starts with the words for that outcome,
/// and with those for the other outcome never.
pub proof fn lemma_message_tells_the_outcome(succeeded: bool, text: Seq<char>)
    ensures
        prefix_for(succeeded).is_prefix_of(message_for(succeeded, text)),
        !prefix_for(!succeeded).is_prefix_of(message_for(succeeded, text)),
{
    reveal_strlit("Success: ");
    reveal_strlit("Failure: ");
    let message = message_for(succeeded, text);
    assert(message.subrange(0, 9) =~= prefix_for(succeeded));
    assert(prefix_for(succeeded)[0] != prefix_for(!succeeded)[0]);
    assert(message.subrange(0, 9)[0] == message[0]);
}

impl ProcessOutput {
    /// Whether the reported stream is short enough to be decoded.
    pub open spec fn decodable(self) -> bool {
        reported_stream(self).len() <= MAX_STREAM_LEN
    }

    /// Tests `decodable`.
    pub fn is_decodable(&self) -> (fits: bool)
        ensures
            fits == self.decodable(),
    {
        if self.succeeded {
            self.stdout.len() <= MAX_STREAM_LEN
        } else {
            self.stderr.len() <= MAX_STREAM_LEN
        }
    }
}

/// Calls `encoding_rs::SHIFT_JIS.decode`, which decodes the whole input and
/// never fails: a malformed sequence becomes U+FFFD. Claims that the text
/// depends on the bytes alone, and that input made of ASCII bytes only is
/// handed back as it is, which the decoder does before it decodes anything.
/// The length bound keeps the decoder's buffer sizes from overflowing, on
/// which it would panic.
#[verifier::external_body]
fn decode_shift_jis(bytes: &[u8]) -> (text: String)
    requires
        bytes@.len() <= MAX_STREAM_LEN,
    ensures
        text@ == shift_jis_text(bytes@),
        all_ascii(bytes@) ==> text@ == ascii_text(bytes@),
{
    let (text, _, _) = encoding_rs::SHIFT_JIS.decode(bytes);
    text.into_owned()
}

/// Says what to start in order to run `command_line`.
pub fn invocation(command_line: &str) -> (start: Invocation)
    ensures
        start@ == shell_invocation(command_line@),
{
    let mut arguments: Vec<String> = Vec::new();
    arguments.push("-Command".to_owned());
    arguments.push(command_line.to_owned());
    let start = Invocation { program: "powershell.exe".to_owned(), arguments };
    assert(start@.arguments =~= shell_invocation(command_line@).arguments);
    start
}

/// Builds the result from an outcome and the decoded text of its stream.
pub fn report(succeeded: bool, text: &str) -> (result: ExecutionResult)
    ensures
        result.succeeded == succeeded,
        result.message@ == message_for(succeeded, text@),
        result.prefixed(),
{
    let prefix: String = if succeeded {
        "Success: ".to_owned()
    } else {
        "Failure: ".to_owned()
    };
    proof {
        lemma_message_tells_the_outcome(succeeded, text@);
    }
    ExecutionResult { succeeded, message: prefix.concat(text) }
}

/// Turns what a finished process left behind into its result: the outcome
/// is the exit status, and the message is built from standard output on
/// success and from standard error on failure, never from both.
pub fn conclude(output: &ProcessOutput) -> (result: ExecutionResult)
    requires
        output.decodable(),
    ensures
        result.succeeded == output.succeeded,
        result.message@ == message_for(
            output.succeeded,
            shift_jis_text(reported_stream(*output)),
        ),
        all_ascii(reported_stream(*output)) ==> result.message@ == message_for(
            output.succeeded,
            ascii_text(reported_stream(*output)),
        ),
        result.prefixed(),
{
    let text = if output.succeeded {
        decode_shift_jis(output.stdout.as_slice())
    } else {
        decode_shift_jis(output.stderr.as_slice())
    };
    report(output.succeeded, text.as_str())
}

/// The result of a run. A shell that could not be started is an error; a
/// process that ran and failed is a result like any other.
pub fn outcome(launched: Option<ProcessOutput>) -> (result: Result<ExecutionResult, LauncherError>)
    requires
        launched matches Some(output) ==> output.decodable(),
    ensures
        launched is None ==> result == Err::<ExecutionResult, LauncherError>(
            LauncherError::ProcessLaunch,
        ),
        launched matches Some(output) ==> (result matches Ok(shown) && shown.succeeded
            == output.succeeded && shown.message@ == message_for(
            output.succeeded,
            shift_jis_text(reported_stream(output)),
        ) && (all_ascii(reported_stream(output)) ==> shown.message@ == message_for(
            output.succeeded,
            ascii_text(reported_stream(output)),
        ))),
{
    match launched {
        None => Err(LauncherError::ProcessLaunch),
        Some(output) => Ok(conclude(&output)),
    }
}

/// The notification that shows a result to the user.
pub fn notification(result: &ExecutionResult) -> (shown: Notification)
    ensures
        shown.title@ == "Command-Launcher Notification"@,
        shown.body@ == result.message@,
{
    Notification {
        title: "Command-Launcher Notification".to_owned(),
        body: result.message.clone(),
    }
}

} // verus!
