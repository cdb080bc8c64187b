//! The policy loader: given the policy source text, the path it came
//! from, and the query to evaluate, produce a validated policy for a
//! snapshot, or say exactly why not.

use vstd::prelude::*;
use crate::config::{ConfigError, Policy};
use crate::engine::{engine_add_policy, engine_new, rego_parses};

verus! {

/// Validates the policy source against the engine and packages it with
/// its query. Succeeds exactly when the engine accepts the source, and
/// then returns precisely the policy made of the given parts — loading
/// twice from the same inputs gives the same policy.
pub fn load_policy(module: String, source: String, query: String) -> (r: Result<
    Policy,
    ConfigError,
>)
    ensures
        r is Ok <==> rego_parses(source@),
        r matches Ok(p) ==> p == (Policy { query, module, source }),
        r matches Err(e) ==> e is PolicyInvalid,
{
    let mut engine = engine_new();
    match engine_add_policy(&mut engine, &module, &source) {
        Ok(()) => Ok(Policy { query, module, source }),
        Err(msg) => Err(ConfigError::PolicyInvalid(msg)),
    }
}

} // verus!
