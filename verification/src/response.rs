//! The answer to a request: a status, headers and a body, as plain values.

use vstd::prelude::*;
use vstd::string::*;
use crate::command::{CommandOutput, CommandOutputView};
use crate::error::{AuthError, DecodeError, LookupError, SpawnError};

verus! {

/// Status of a request that ran its command.
pub const STATUS_OK: u16 = 200;

/// Status of a request whose command is unknown or could not be started.
pub const STATUS_BAD_REQUEST: u16 = 400;

/// Status of a request without the configured bearer token.
pub const STATUS_UNAUTHORIZED: u16 = 401;

/// Status of a request that names no command.
pub const STATUS_FORBIDDEN: u16 = 403;

/// Status of a request whose command wrote output that is not text.
pub const STATUS_INTERNAL_SERVER_ERROR: u16 = 500;

/// The body of a response.
#[derive(Debug, PartialEq, Eq)]
pub enum Body {
    /// No body at all.
    Empty,
    /// A plain text.
    Text(String),
    /// The outcome of a command, to be written as a JSON object with the
    /// fields `output`, `exitcode` and `stderr`.
    Json(CommandOutput),
}

/// What is sent back to the caller.
#[derive(Debug, PartialEq, Eq)]
pub struct Response {
    /// The HTTP status code.
    pub status: u16,
    /// Header names and values, in the order in which they were added.
    pub headers: Vec<(String, String)>,
    /// The body.
    pub body: Body,
}

/// What a [`Body`] holds.
pub ghost enum BodyView {
    Empty,
    Text(Seq<char>),
    Json(CommandOutputView),
}

/// What a [`Response`] holds.
pub ghost struct ResponseView {
    pub status: u16,
    pub headers: Seq<(Seq<char>, Seq<char>)>,
    pub body: BodyView,
}

impl View for Body {
    type V = BodyView;

    open spec fn view(&self) -> BodyView {
        match self {
            Body::Empty => BodyView::Empty,
            Body::Text(text) => BodyView::Text(text@),
            Body::Json(output) => BodyView::Json(output@),
        }
    }
}

impl View for Response {
    type V = ResponseView;

    open spec fn view(&self) -> ResponseView {
        ResponseView {
            status: self.status,
            headers: self.headers.deep_view(),
            body: self.body@,
        }
    }
}

/// The header value that reports an unknown command: it spells out the name
/// exactly as the caller sent it.
pub open spec fn not_found_message(name: Seq<char>) -> Seq<char> {
    "command "@ + name + " not found"@
}

/// The body that reports a program that could not be started.
pub open spec fn spawn_failure_message(message: Seq<char>) -> Seq<char> {
    "Error "@ + message
}

/// The answer to a request without the configured bearer token.
pub open spec fn unauthorized() -> ResponseView {
    ResponseView {
        status: STATUS_UNAUTHORIZED,
        headers: Seq::empty(),
        body: BodyView::Text("Wrong Token"@),
    }
}

/// The answer to a request that names no command.
pub open spec fn missing_input() -> ResponseView {
    ResponseView {
        status: STATUS_FORBIDDEN,
        headers: seq![("x-error"@, "command is needed"@)],
        body: BodyView::Empty,
    }
}

/// The answer to a request for a command that the registry does not hold.
pub open spec fn not_found(name: Seq<char>) -> ResponseView {
    ResponseView {
        status: STATUS_BAD_REQUEST,
        headers: seq![("X-ERROR"@, not_found_message(name))],
        body: BodyView::Empty,
    }
}

/// The answer to a request whose program could not be started.
pub open spec fn spawn_failed(message: Seq<char>) -> ResponseView {
    ResponseView {
        status: STATUS_BAD_REQUEST,
        headers: Seq::empty(),
        body: BodyView::Text(spawn_failure_message(message)),
    }
}

/// The answer to a request whose program wrote output that is not text.
pub open spec fn decode_failed() -> ResponseView {
    ResponseView {
        status: STATUS_INTERNAL_SERVER_ERROR,
        headers: Seq::empty(),
        body: BodyView::Text("Error output is not valid UTF-8"@),
    }
}

/// The answer to a request whose program ran.
pub open spec fn success(output: CommandOutputView) -> ResponseView {
    ResponseView { status: STATUS_OK, headers: Seq::empty(), body: BodyView::Json(output) }
}

impl Response {
    /// A response without headers.
    fn plain(status: u16, body: Body) -> (response: Response)
        ensures
            response@ == (ResponseView { status, headers: Seq::empty(), body: body@ }),
    {
        let response = Response { status, headers: Vec::new(), body };
        assert(response.headers.deep_view() == Seq::<(Seq<char>, Seq<char>)>::empty());
        response
    }

    /// A response without a body that carries one header.
    fn with_header(status: u16, name: &str, value: String) -> (response: Response)
        ensures
            response@ == (ResponseView {
                status,
                headers: seq![(name@, value@)],
                body: BodyView::Empty,
            }),
    {
        let mut headers: Vec<(String, String)> = Vec::new();
        headers.push((String::from_str(name), value));
        let response = Response { status, headers, body: Body::Empty };
        assert(response.headers.deep_view() == seq![(name@, value@)]);
        response
    }

    /// Answers a request that failed authorization. A missing token and a
    /// wrong one are answered alike.
    pub fn from_auth_error(error: &AuthError) -> (response: Response)
        ensures
            response@ == unauthorized(),
    {
        Response::plain(STATUS_UNAUTHORIZED, Body::Text(String::from_str("Wrong Token")))
    }

    /// Answers a request for which no invocation was found.
    pub fn from_lookup_error(error: &LookupError) -> (response: Response)
        ensures
            error matches LookupError::MissingInput ==> response@ == missing_input(),
            error matches LookupError::NotFound(name) ==> response@ == not_found(name@),
    {
        match error {
            LookupError::MissingInput => Response::with_header(
                STATUS_FORBIDDEN,
                "x-error",
                String::from_str("command is needed"),
            ),
            LookupError::NotFound(name) => {
                let mut value = String::from_str("command ");
                value.append(name.as_str());
                value.append(" not found");
                Response::with_header(STATUS_BAD_REQUEST, "X-ERROR", value)
            },
        }
    }

    /// Answers a request whose program could not be started.
    pub fn from_spawn_error(error: &SpawnError) -> (response: Response)
        ensures
            response@ == spawn_failed(error.message@),
    {
        let mut text = String::from_str("Error ");
        text.append(error.message.as_str());
        Response::plain(STATUS_BAD_REQUEST, Body::Text(text))
    }

    /// Answers a request whose program wrote output that is not text.
    pub fn from_decode_error(error: &DecodeError) -> (response: Response)
        ensures
            response@ == decode_failed(),
    {
        Response::plain(
            STATUS_INTERNAL_SERVER_ERROR,
            Body::Text(String::from_str("Error output is not valid UTF-8")),
        )
    }

    /// Answers a request whose program ran, with what it wrote and how it
    /// ended.
    pub fn from_output(output: CommandOutput) -> (response: Response)
        ensures
            response@ == success(output@),
    {
        Response::plain(STATUS_OK, Body::Json(output))
    }
}

} // verus!
