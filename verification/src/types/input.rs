//! The raw request facts as the caller supplies them.

use vstd::prelude::*;

verus! {

/// One authorization request as received: which evaluation to run, the
/// subject reference to resolve, and the action being authorized.
#[derive(Debug, Clone)]
pub struct Input {
    pub eval: String,
    pub kratos: String,
    pub resource: i64,
    pub method: String,
    pub uri: String,
}

} // verus!
