//! A gateway that runs pre-registered commands on behalf of authenticated
//! callers.
//!
//! A caller names a command; the gateway looks the name up in its registry,
//! reads the registered invocation string as a program and its arguments,
//! and reports what the program wrote and how it ended. The name is never
//! run itself, and the invocation string is never handed to a shell.
//!
//! This crate holds the decisions: who may call, what is spawned for a name,
//! and what is answered. Spawning the program and speaking HTTP are left to
//! the caller of this crate.

pub mod auth;
pub mod command;
pub mod config;
pub mod error;
pub mod gateway;
pub mod invocation;
pub mod response;

pub use auth::validator;
pub use command::{complete, exec, resolve, CommandOutput, CommandRequest, ProcessOutput, Step};
pub use config::Config;
pub use error::{AuthError, DecodeError, LookupError, SpawnError};
pub use gateway::receive;
pub use invocation::{tokens, Invocation};
pub use response::{Body, Response};
