//! Requests for a command, and what a command that ran left behind.

use vstd::prelude::*;
use vstd::utf8::*;
use crate::config::Config;
use crate::error::{DecodeError, LookupError, SpawnError};
use crate::invocation::{invocation_of, Invocation, InvocationView};
use crate::response::{
    decode_failed, missing_input, not_found, spawn_failed, success, Response, ResponseView,
};

verus! {

/// The body of a request: the name of the command to run, if the caller gave
/// one.
#[derive(Debug, PartialEq, Eq)]
pub struct CommandRequest {
    pub command: Option<String>,
}

impl View for CommandRequest {
    type V = Option<Seq<char>>;

    open spec fn view(&self) -> Option<Seq<char>> {
        self.command.deep_view()
    }
}

/// What a program left behind, as the operating system handed it over.
#[derive(Debug, PartialEq, Eq)]
pub struct ProcessOutput {
    /// Everything the program wrote to standard output.
    pub stdout: Vec<u8>,
    /// Everything the program wrote to standard error.
    pub stderr: Vec<u8>,
    /// The exit code, or `None` for a program that a signal ended.
    pub exitcode: Option<i32>,
}

/// What a program left behind, as it is reported to the caller.
#[derive(Debug, PartialEq, Eq)]
pub struct CommandOutput {
    /// Standard output, as text.
    pub output: String,
    /// The exit code, or `None` for a program that a signal ended.
    pub exitcode: Option<i32>,
    /// Standard error, as text, or `None` where it is not text.
    pub stderr: Option<String>,
}

/// What a [`CommandOutput`] holds.
pub ghost struct CommandOutputView {
    pub output: Seq<char>,
    pub exitcode: Option<i32>,
    pub stderr: Option<Seq<char>>,
}

impl View for CommandOutput {
    type V = CommandOutputView;

    open spec fn view(&self) -> CommandOutputView {
        CommandOutputView {
            output: self.output@,
            exitcode: self.exitcode,
            stderr: self.stderr.deep_view(),
        }
    }
}

/// The text that bytes encode, if they are valid UTF-8.
pub open spec fn text_of(bytes: Seq<u8>) -> Option<Seq<char>> {
    if valid_utf8(bytes) {
        Some(decode_utf8(bytes))
    } else {
        None
    }
}

/// The report on what a program left behind. Standard output has to be
/// text: it is reported decoded, with the exit code as it came and with
/// standard error if that is text too. Where standard output is not text
/// there is no report.
pub open spec fn report_of(stdout: Seq<u8>, stderr: Seq<u8>, exitcode: Option<i32>) -> Result<
    CommandOutputView,
    DecodeError,
> {
    if valid_utf8(stdout) {
        Ok(CommandOutputView { output: decode_utf8(stdout), exitcode, stderr: text_of(stderr) })
    } else {
        Err(DecodeError::InvalidOutput)
    }
}

/// `std::string::FromUtf8Error`, the error of `String::from_utf8`.
#[verifier::external_type_specification]
#[verifier::external_body]
pub struct ExFromUtf8Error(std::string::FromUtf8Error);

/// `String::from_utf8` of the standard library. Assumed, not proved: it
/// succeeds exactly on valid UTF-8, and the string it gives is made of the
/// very bytes it was given.
pub assume_specification[ String::from_utf8 ](vec: Vec<u8>) -> (r: Result<
    String,
    std::string::FromUtf8Error,
>)
    ensures
        r.is_ok() == valid_utf8(vec@),
        r matches Ok(s) ==> encode_utf8(s@) == vec@,
;

/// Reads bytes as UTF-8 text.
pub fn decode(bytes: Vec<u8>) -> (text: Option<String>)
    ensures
        text.deep_view() == text_of(bytes@),
{
    match String::from_utf8(bytes) {
        Ok(s) => {
            proof {
                encode_utf8_decode_utf8(s@);
            }
            Some(s)
        },
        Err(_) => None,
    }
}

impl CommandOutput {
    /// The report on what a program left behind.
    ///
    /// Standard output has to be text: where it is not, there is no report
    /// but a [`DecodeError`]. Standard error is reported if it is text and
    /// left out if it is not. The exit code is passed on as it came.
    pub fn new(output_val: &ProcessOutput) -> (r: Result<CommandOutput, DecodeError>)
        ensures
            match r {
                Ok(report) => report_of(
                    output_val.stdout@,
                    output_val.stderr@,
                    output_val.exitcode,
                ) == Ok::<CommandOutputView, DecodeError>(report@),
                Err(error) => report_of(
                    output_val.stdout@,
                    output_val.stderr@,
                    output_val.exitcode,
                ) == Err::<CommandOutputView, DecodeError>(error),
            },
    {
        match decode(output_val.stdout.clone()) {
            Some(output) => {
                let stderr = decode(output_val.stderr.clone());
                Ok(CommandOutput { output, exitcode: output_val.exitcode, stderr })
            },
            None => Err(DecodeError::InvalidOutput),
        }
    }
}

/// What is to be done next for a request.
#[derive(Debug, PartialEq, Eq)]
pub enum Step {
    /// Spawn this invocation, wait for it, and hand what became of it to
    /// [`complete`].
    Spawn(Invocation),
    /// Send this response. Nothing further runs for the request.
    Reply(Response),
}

/// What a [`Step`] holds.
pub ghost enum StepView {
    Spawn(InvocationView),
    Reply(ResponseView),
}

impl View for Step {
    type V = StepView;

    open spec fn view(&self) -> StepView {
        match self {
            Step::Spawn(invocation) => StepView::Spawn(invocation@),
            Step::Reply(response) => StepView::Reply(response@),
        }
    }
}

/// Finds the invocation for a request.
///
/// A request without a command name is a [`LookupError::MissingInput`], and
/// the registry is not consulted for it. A name that the registry does not
/// hold is a [`LookupError::NotFound`] that carries the name. For a name
/// that it holds the registered invocation string is read; this never fails,
/// whatever the string is.
pub fn resolve(command_req: &CommandRequest, config: &Config) -> (r: Result<Invocation, LookupError>)
    ensures
        match r {
            Ok(invocation) => {
                &&& command_req@ matches Some(name)
                &&& config@.commands.contains_key(name)
                &&& invocation@ == invocation_of(config@.commands[name])
            },
            Err(LookupError::MissingInput) => command_req@ is None,
            Err(LookupError::NotFound(name)) => {
                &&& command_req@ == Some(name@)
                &&& !config@.commands.contains_key(name@)
            },
        },
{
    match &command_req.command {
        None => Err(LookupError::MissingInput),
        Some(name) => match config.lookup(name.as_str()) {
            Some(line) => Ok(Invocation::parse(line)),
            None => Err(LookupError::NotFound(name.clone())),
        },
    }
}

/// The step that a request calls for, given the registry: the registered
/// invocation is spawned, anything else is answered at once.
pub open spec fn exec_spec(request: Option<Seq<char>>, registry: Map<Seq<char>, Seq<char>>) -> StepView {
    match request {
        None => StepView::Reply(missing_input()),
        Some(name) => if registry.contains_key(name) {
            StepView::Spawn(invocation_of(registry[name]))
        } else {
            StepView::Reply(not_found(name))
        },
    }
}

/// Decides what to do for an authorized request: spawn the invocation that
/// is registered under the requested name, or answer with the reason why
/// there is none.
pub fn exec(command_req: &CommandRequest, config: &Config) -> (step: Step)
    ensures
        step@ == exec_spec(command_req@, config@.commands),
{
    match resolve(command_req, config) {
        Ok(invocation) => Step::Spawn(invocation),
        Err(error) => Step::Reply(Response::from_lookup_error(&error)),
    }
}

/// The response to a request whose invocation was spawned, given what became
/// of it.
pub open spec fn complete_spec(spawned: Result<ProcessOutput, SpawnError>) -> ResponseView {
    match spawned {
        Err(error) => spawn_failed(error.message@),
        Ok(raw) => match report_of(raw.stdout@, raw.stderr@, raw.exitcode) {
            Ok(report) => success(report),
            Err(_) => decode_failed(),
        },
    }
}

/// Answers a request whose invocation was spawned: with the report on the
/// program if it ran and wrote text, with the reason otherwise.
pub fn complete(spawned: Result<ProcessOutput, SpawnError>) -> (response: Response)
    ensures
        response@ == complete_spec(spawned),
{
    match spawned {
        Err(error) => Response::from_spawn_error(&error),
        Ok(raw) => match CommandOutput::new(&raw) {
            Ok(report) => Response::from_output(report),
            Err(error) => Response::from_decode_error(&error),
        },
    }
}

} // verus!
