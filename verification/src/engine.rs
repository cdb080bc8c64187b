//! The only doorway to the external policy engine. Each function here
//! wraps one engine call; everything the rest of the library knows about
//! the engine is what these contracts say.

use vstd::prelude::*;

verus! {

#[verifier::external_type_specification]
#[verifier::external_body]
pub struct ExEngine(regorus::Engine);

/// Whether the engine's parser accepts this policy source. Parsing in
/// the engine is deterministic: acceptance depends on the source text
/// alone (for an engine with its default settings, which is the only
/// kind this library creates).
pub uninterp spec fn rego_parses(src: Seq<char>) -> bool;

/// What one evaluation handed back, reduced to what the pipeline needs.
#[derive(Debug, Clone)]
pub enum EngineOutcome {
    /// The rule evaluated to a boolean.
    Decided(bool),
    /// The rule evaluated to no value at all.
    Empty,
    /// The rule evaluated to something other than a boolean.
    NonBoolean,
    /// The engine reported an error.
    Failed(String),
}

/// Relies on regorus::Engine::new: creates an engine with default
/// settings and nothing loaded.
#[verifier::external_body]
pub fn engine_new() -> regorus::Engine {
    regorus::Engine::new()
}

/// Relies on regorus::Engine::add_policy: the source is parsed, and
/// acceptance is a function of the source text alone; the engine's own
/// error text is handed back on rejection.
#[verifier::external_body]
pub fn engine_add_policy(e: &mut regorus::Engine, path: &String, src: &String) -> (r: Result<
    (),
    String,
>)
    ensures
        r is Ok <==> rego_parses(src@),
{
    match e.add_policy(path.clone(), src.clone()) {
        Ok(_) => Ok(()),
        Err(err) => Err(err.to_string()),
    }
}

/// Relies on regorus::Engine::add_data_json: parses the JSON text and
/// merges it into the engine's data document; fails on malformed JSON,
/// a non-object document, or a merge conflict.
#[verifier::external_body]
pub fn engine_add_data_json(e: &mut regorus::Engine, data_json: &String) -> (r: Result<(), String>)
{
    match e.add_data_json(data_json.as_str()) {
        Ok(()) => Ok(()),
        Err(err) => Err(err.to_string()),
    }
}

/// Relies on regorus::Engine::set_input_json: parses the JSON text and
/// makes it the input document; fails on malformed JSON.
#[verifier::external_body]
pub fn engine_set_input_json(e: &mut regorus::Engine, input_json: &String) -> (r: Result<
    (),
    String,
>) {
    match e.set_input_json(input_json.as_str()) {
        Ok(()) => Ok(()),
        Err(err) => Err(err.to_string()),
    }
}

/// Relies on regorus::Engine::eval_rule: evaluates the named rule and
/// returns its value; each engine value kind is mapped to the outcome
/// the pipeline distinguishes.
#[verifier::external_body]
pub fn engine_eval_rule(e: &mut regorus::Engine, rule: &String) -> EngineOutcome {
    match e.eval_rule(rule.clone()) {
        Ok(regorus::Value::Bool(b)) => EngineOutcome::Decided(b),
        Ok(regorus::Value::Undefined) => EngineOutcome::Empty,
        Ok(regorus::Value::Null) => EngineOutcome::NonBoolean,
        Ok(regorus::Value::Number(_)) => EngineOutcome::NonBoolean,
        Ok(regorus::Value::String(_)) => EngineOutcome::NonBoolean,
        Ok(regorus::Value::Array(_)) => EngineOutcome::NonBoolean,
        Ok(regorus::Value::Set(_)) => EngineOutcome::NonBoolean,
        Ok(regorus::Value::Object(_)) => EngineOutcome::NonBoolean,
        Err(err) => EngineOutcome::Failed(err.to_string()),
    }
}

} // verus!
