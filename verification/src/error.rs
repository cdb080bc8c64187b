//! The error taxonomy of the evaluation pipeline. Errors are tagged
//! values, each with a fixed, stated message; the transport layer maps
//! them onto its own status codes.

use vstd::prelude::*;

verus! {

/// Everything the pipeline can report to a caller.
#[derive(Debug, Clone)]
pub enum Router {
    /// A document could not be serialized for the engine.
    Serialisation(String),
    /// An internal failure, carrying the engine's or collaborator's text.
    Internal(String),
    /// A header or body could not be read as text.
    StrConvert(String),
    /// The engine evaluated the query to no value at all.
    EmptyResponse,
    /// No policy has ever been loaded.
    NotInitialized,
    /// The policy produced something other than a boolean.
    NonBoolean,
    /// The identity provider does not know the subject.
    Unauthorized,
    /// The identity provider answered with an unexpected status.
    Unavailable(u16),
}

/// The fixed message for each error class.
pub open spec fn router_message(e: Router) -> Seq<char> {
    match e {
        Router::Serialisation(_) => "failed to serialize data"@,
        Router::Internal(_) => "failed to apply identity patch"@,
        Router::StrConvert(_) => "failled to convert to string"@,
        Router::EmptyResponse => "should never be empty."@,
        Router::NotInitialized => "opa not initialized"@,
        Router::NonBoolean => "policy result is not a boolean"@,
        Router::Unauthorized => "identity not found"@,
        Router::Unavailable(_) => "identity provider unavailable"@,
    }
}

impl Router {
    /// The message for this error, exactly as `router_message` states it.
    pub fn message(&self) -> (r: String)
        ensures
            r@ == router_message(*self),
    {
        match self {
            Router::Serialisation(_) => "failed to serialize data".to_owned(),
            Router::Internal(_) => "failed to apply identity patch".to_owned(),
            Router::StrConvert(_) => "failled to convert to string".to_owned(),
            Router::EmptyResponse => "should never be empty.".to_owned(),
            Router::NotInitialized => "opa not initialized".to_owned(),
            Router::NonBoolean => "policy result is not a boolean".to_owned(),
            Router::Unauthorized => "identity not found".to_owned(),
            Router::Unavailable(_) => "identity provider unavailable".to_owned(),
        }
    }
}

} // verus!
