//! Authorization: whether a caller may use the gateway at all. This is
//! settled for every request before anything else is done for it.

use vstd::prelude::*;
use crate::config::Config;
use crate::error::AuthError;

verus! {

/// True when the presented credentials are the configured secret, character
/// for character.
pub open spec fn authorized(credentials: Option<Seq<char>>, secret: Seq<char>) -> bool {
    credentials == Some(secret)
}

/// Checks the bearer token of a request against the configured secret.
///
/// The token passes if it equals the secret exactly. Any other token is a
/// [`AuthError::WrongToken`], and a request without a token is a
/// [`AuthError::MissingToken`].
pub fn validator(credentials: Option<&str>, config: &Config) -> (r: Result<(), AuthError>)
    ensures
        r is Ok <==> authorized(credentials.deep_view(), config@.auth),
        match r {
            Ok(_) => credentials matches Some(token) && token@ == config@.auth,
            Err(AuthError::MissingToken) => credentials is None,
            Err(AuthError::WrongToken) => credentials matches Some(token) && token@ != config@.auth,
        },
{
    match credentials {
        None => Err(AuthError::MissingToken),
        Some(token) => {
            if config.accepts(token) {
                Ok(())
            } else {
                Err(AuthError::WrongToken)
            }
        },
    }
}

} // verus!
