//! The value types that cross the service boundary: the caller's request
//! facts, the documents handed to the policy engine, and the decision
//! documents handed back.

pub mod input;
pub mod kratos;
pub mod opa;
pub mod opadata;
