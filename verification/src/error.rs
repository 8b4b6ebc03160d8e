//! The ways in which a request can fail. Each is final for its request:
//! nothing is retried, and no later stage runs once one has occurred.

use vstd::prelude::*;

verus! {

/// The caller did not prove that it may use the gateway.
#[derive(Debug, Clone, Copy, PartialEq, Eq)]
pub enum AuthError {
    /// The request carried no bearer token.
    MissingToken,
    /// The request carried a bearer token other than the configured secret.
    WrongToken,
}

/// No invocation could be found for the request.
#[derive(Debug, PartialEq, Eq)]
pub enum LookupError {
    /// The request named no command.
    MissingInput,
    /// The request named a command that the registry does not hold.
    NotFound(String),
}

/// The program could not be started. Carries the operating system's message.
#[derive(Debug, PartialEq, Eq)]
pub struct SpawnError {
    pub message: String,
}

/// The program ran, but what it wrote to standard output is not UTF-8 text.
#[derive(Debug, Clone, Copy, PartialEq, Eq)]
pub enum DecodeError {
    /// Standard output holds a byte sequence that is not valid UTF-8.
    InvalidOutput,
}

} // verus!
