//! The pipeline as a whole: authorize, resolve, spawn, respond.
//!
//! A request moves through the stages in this order and never back. Each
//! stage either hands a value to the next or ends the request with a
//! response; after that no further stage runs for it.

use vstd::prelude::*;
use vstd::utf8::*;
use crate::auth::{authorized, validator};
use crate::command::{
    complete_spec, exec, exec_spec, CommandRequest, ProcessOutput, Step, StepView,
};
use crate::config::{Config, ConfigView};
use crate::error::SpawnError;
use crate::invocation::invocation_of;
use crate::response::{
    missing_input, not_found, not_found_message, unauthorized, BodyView, Response,
    STATUS_BAD_REQUEST, STATUS_FORBIDDEN, STATUS_OK, STATUS_UNAUTHORIZED,
};

verus! {

/// The step that a request calls for: unless the credentials are the secret
/// the answer is `unauthorized`, whatever else the request and the
/// configuration hold; with them it is what the command calls for.
pub open spec fn receive_spec(
    credentials: Option<Seq<char>>,
    request: Option<Seq<char>>,
    config: ConfigView,
) -> StepView {
    if authorized(credentials, config.auth) {
        exec_spec(request, config.commands)
    } else {
        StepView::Reply(unauthorized())
    }
}

/// Takes a request through authorization and lookup, and says what is to be
/// done for it: spawn an invocation, or send a response.
pub fn receive(credentials: Option<&str>, command_req: &CommandRequest, config: &Config) -> (step:
    Step)
    ensures
        step@ == receive_spec(credentials.deep_view(), command_req@, config@),
{
    match validator(credentials, config) {
        Ok(_) => exec(command_req, config),
        Err(error) => Step::Reply(Response::from_auth_error(&error)),
    }
}

/// A request that presents the secret and names a registered command has
/// that command's invocation spawned. Once the program has run and written
/// text, the answer has status 200 and reports that text as `output` and
/// the program's exit code as `exitcode`.
pub proof fn registered_command_is_run(config: ConfigView, name: Seq<char>, raw: ProcessOutput)
    requires
        config.commands.contains_key(name),
        valid_utf8(raw.stdout@),
    ensures
        receive_spec(Some(config.auth), Some(name), config) == StepView::Spawn(
            invocation_of(config.commands[name]),
        ),
        complete_spec(Ok(raw)).status == STATUS_OK,
        complete_spec(Ok(raw)).body matches BodyView::Json(report) && report.output
            == decode_utf8(raw.stdout@) && report.exitcode == raw.exitcode,
{
}

/// A request that presents the secret and names a command that the registry
/// does not hold is answered with status 400 and an `X-ERROR` header that
/// spells the name out exactly as it was sent: the name starts at the ninth
/// character of the header's value, and two names never share a value.
pub proof fn unknown_command_is_bad_request(config: ConfigView, name: Seq<char>, other: Seq<char>)
    requires
        !config.commands.contains_key(name),
    ensures
        receive_spec(Some(config.auth), Some(name), config) == StepView::Reply(not_found(name)),
        not_found(name).status == STATUS_BAD_REQUEST,
        not_found(name).headers == seq![("X-ERROR"@, not_found_message(name))],
        not_found_message(name).subrange(8, 8 + name.len() as int) == name,
        not_found_message(name) == not_found_message(other) ==> name == other,
{
    reveal_strlit("command ");
    reveal_strlit(" not found");
    let prefix = "command "@;
    let suffix = " not found"@;
    assert(not_found_message(name).subrange(8, 8 + name.len() as int) == name);
    if not_found_message(name) == not_found_message(other) {
        assert(not_found_message(name).len() == 18 + name.len());
        assert(not_found_message(other).len() == 18 + other.len());
        assert(not_found_message(other).subrange(8, 8 + other.len() as int) == other);
    }
}

/// A request that presents the secret and names no command is answered with
/// status 403 and the header `x-error: command is needed`, whatever the
/// registry holds.
pub proof fn missing_command_is_forbidden(config: ConfigView)
    ensures
        receive_spec(Some(config.auth), None, config) == StepView::Reply(missing_input()),
        missing_input().status == STATUS_FORBIDDEN,
        missing_input().headers == seq![("x-error"@, "command is needed"@)],
{
}

/// A request that does not present the secret is answered with status 401,
/// whatever it asks for and whatever the registry holds, and nothing is
/// spawned for it.
pub proof fn wrong_token_is_unauthorized(
    credentials: Option<Seq<char>>,
    request: Option<Seq<char>>,
    config: ConfigView,
)
    requires
        credentials != Some(config.auth),
    ensures
        receive_spec(credentials, request, config) == StepView::Reply(unauthorized()),
        unauthorized().status == STATUS_UNAUTHORIZED,
        !(receive_spec(credentials, request, config) is Spawn),
{
}

/// A program that could not be started is answered with status 400 and the
/// operating system's message after the word `Error`.
pub proof fn spawn_failure_is_bad_request(error: SpawnError)
    ensures
        complete_spec(Err(error)).status == STATUS_BAD_REQUEST,
        complete_spec(Err(error)).body == BodyView::Text("Error "@ + error.message@),
{
}

} // verus!
