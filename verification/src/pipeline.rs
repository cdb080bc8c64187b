//! The per-request evaluation pipeline: resolve the caller's identity,
//! hand the engine one input and one data document built from a single
//! snapshot, and turn what comes back into a decision — or into exactly
//! one error report and a typed error.

use vstd::prelude::*;
use crate::config::{has_topic, Opa, Policy};
use crate::engine::{
    engine_add_data_json,
    engine_add_policy,
    engine_eval_rule,
    engine_new,
    engine_set_input_json,
    EngineOutcome,
};
use crate::error::Router;
use crate::report::{error_payload_json, error_report, topic_target, Report};
use crate::store::ConfigStore;
use crate::types::opa::{bool_str, OpaInput, Response};
use crate::types::opadata::Opadata;

verus! {

/// What a decision is for each engine outcome: a boolean becomes the
/// decision itself, no value at all is the "empty response" error — not
/// a default deny — anything else is a policy-authoring error, and an
/// engine failure is internal.
pub open spec fn spec_decide(o: EngineOutcome) -> Result<Response, Router> {
    match o {
        EngineOutcome::Decided(b) => Ok(Response { validate: b }),
        EngineOutcome::Empty => Err(Router::EmptyResponse),
        EngineOutcome::NonBoolean => Err(Router::NonBoolean),
        EngineOutcome::Failed(m) => Err(Router::Internal(m)),
    }
}

/// Turns one engine outcome into the decision or error the caller sees;
/// exactly `spec_decide`.
pub fn decide(o: EngineOutcome) -> (r: Result<Response, Router>)
    ensures
        r == spec_decide(o),
{
    match o {
        EngineOutcome::Decided(b) => Ok(Response { validate: b }),
        EngineOutcome::Empty => Err(Router::EmptyResponse),
        EngineOutcome::NonBoolean => Err(Router::NonBoolean),
        EngineOutcome::Failed(m) => Err(Router::Internal(m)),
    }
}

/// No engine outcome decides to "not initialized": that error can only
/// come from the snapshot check, before any engine call.
pub proof fn lemma_decide_never_uninitialized(o: EngineOutcome)
    ensures
        spec_decide(o) != Err::<Response, Router>(Router::NotInitialized),
{
}

/// Law: everything after the engine call is deterministic — the same
/// snapshot and the same engine outcome always map to the same decision.
/// Determinism of the engine itself, for a fixed policy, query, input
/// and data, is assumed of the engine, not restated here.
pub proof fn lemma_evaluate_deterministic(c1: Opa, c2: Opa, o1: EngineOutcome, o2: EngineOutcome)
    requires
        c1 == c2,
        o1 == o2,
    ensures
        spec_pipeline(c1, o1) == spec_pipeline(c2, o2),
{
}

/// The decision of the whole pipeline, as a function of the snapshot
/// and of whatever the engine handed back.
pub open spec fn spec_pipeline(config: Opa, o: EngineOutcome) -> Result<Response, Router> {
    if config.policy is None {
        Err(Router::NotInitialized)
    } else {
        spec_decide(o)
    }
}

/// One full engine conversation on a fresh engine: load the snapshot's
/// policy, merge the data document, set the input document, evaluate
/// the snapshot's query. Any step failing is an outcome of its own.
fn run_eval(p: &Policy, input_json: &String, data_json: &String) -> EngineOutcome {
    let mut engine = engine_new();
    match engine_add_policy(&mut engine, &p.module, &p.source) {
        Ok(()) => {},
        Err(m) => {
            return EngineOutcome::Failed(m);
        },
    }
    match engine_add_data_json(&mut engine, data_json) {
        Ok(()) => {},
        Err(m) => {
            return EngineOutcome::Failed(m);
        },
    }
    match engine_set_input_json(&mut engine, input_json) {
        Ok(()) => {},
        Err(m) => {
            return EngineOutcome::Failed(m);
        },
    }
    engine_eval_rule(&mut engine, &p.query)
}

/// Evaluates one request against one snapshot and returns the typed
/// decision. Fails with "not initialized", and touches no engine, exactly
/// when the snapshot holds no policy; otherwise the result is the
/// decision for whatever outcome the engine produced.
pub fn evaluate_decision(config: &Opa, input: &OpaInput, data: &Opadata) -> (r: Result<
    Response,
    Router,
>)
    ensures
        config.policy is None <==> r == Err::<Response, Router>(Router::NotInitialized),
        config.policy is Some ==> exists|o: EngineOutcome| r == spec_pipeline(*config, o),
{
    let p = match &config.policy {
        Some(p) => p,
        None => {
            return Err(Router::NotInitialized);
        },
    };
    let input_json = input.to_json();
    let data_json = data.to_json();
    let o = run_eval(p, &input_json, &data_json);
    let r = decide(o);
    proof {
        assert(r == spec_pipeline(*config, o));
        lemma_decide_never_uninitialized(o);
    }
    r
}

/// Whether a result is the decision for the outcome `o`, with the
/// decision rendered as a bare JSON boolean.
pub open spec fn finish_matches(r: Result<String, Router>, o: EngineOutcome) -> bool {
    match spec_decide(o) {
        Ok(resp) => r matches Ok(s) && s@ == bool_str(resp.validate),
        Err(e) => r == Err::<String, Router>(e),
    }
}

/// Evaluates one request against one snapshot and renders the decision
/// as the transport sends it in its strict mode: the bare JSON boolean.
pub fn evaluate(config: &Opa, input: &OpaInput, data: &Opadata) -> (r: Result<String, Router>)
    ensures
        config.policy is None <==> r == Err::<String, Router>(Router::NotInitialized),
        r matches Ok(s) ==> exists|b: bool| s@ == bool_str(b),
        config.policy is Some ==> exists|o: EngineOutcome| finish_matches(r, o),
{
    let p = match &config.policy {
        Some(p) => p,
        None => {
            return Err(Router::NotInitialized);
        },
    };
    let input_json = input.to_json();
    let data_json = data.to_json();
    let o = run_eval(p, &input_json, &data_json);
    let r: Result<String, Router> = match decide(o) {
        Ok(resp) => Ok(resp.to_bare_json()),
        Err(e) => Err(e),
    };
    proof {
        assert(finish_matches(r, o));
        lemma_decide_never_uninitialized(o);
        assert(!(r == Err::<String, Router>(Router::NotInitialized)));
    }
    r
}

/// How the identity provider answered, as the transport hands it over.
#[derive(Debug, Clone)]
pub enum FetchOutcome {
    /// A well-formed identity record came back.
    Success(Opadata),
    /// The provider does not know the subject.
    NotFound,
    /// The provider answered with an unexpected status.
    Upstream(u16),
    /// The provider could not be reached at all.
    NetworkError(String),
}

/// The error class for each way an identity fetch can end: an unknown
/// subject is unauthorized, a bad status is the provider being
/// unavailable, an unreachable provider is internal.
pub open spec fn spec_resolve(f: FetchOutcome) -> Result<Opadata, Router> {
    match f {
        FetchOutcome::Success(d) => Ok(d),
        FetchOutcome::NotFound => Err(Router::Unauthorized),
        FetchOutcome::Upstream(s) => Err(Router::Unavailable(s)),
        FetchOutcome::NetworkError(m) => Err(Router::Internal(m)),
    }
}

/// Maps an identity-fetch outcome to the identity, or to the error class
/// the caller must see; exactly `spec_resolve`.
pub fn resolve_identity(f: FetchOutcome) -> (r: Result<Opadata, Router>)
    ensures
        r == spec_resolve(f),
{
    match f {
        FetchOutcome::Success(d) => Ok(d),
        FetchOutcome::NotFound => Err(Router::Unauthorized),
        FetchOutcome::Upstream(s) => Err(Router::Unavailable(s)),
        FetchOutcome::NetworkError(m) => Err(Router::Internal(m)),
    }
}

/// How an HTTP status from the identity provider is classified.
#[derive(Debug, Clone, PartialEq, Eq, Structural)]
pub enum IdentityClass {
    /// The fetch succeeded; the body carries the identity.
    Success,
    /// The subject is unknown to the provider.
    NotFound,
    /// Any other status: the provider is not behaving as expected.
    Upstream,
}

/// Classifies an identity-provider status: any 2xx is success, 404 is an
/// unknown subject, everything else is an upstream failure.
pub fn classify_identity_status(status: u16) -> (r: IdentityClass)
    ensures
        (200 <= status < 300) <==> r == IdentityClass::Success,
        status == 404 <==> r == IdentityClass::NotFound,
{
    if 200 <= status && status < 300 {
        IdentityClass::Success
    } else if status == 404 {
        IdentityClass::NotFound
    } else {
        IdentityClass::Upstream
    }
}

/// One whole request: read the current snapshot once, resolve the
/// identity, evaluate, and on any failure build exactly one error
/// report against the snapshot current at reporting time. The report
/// is handed back for the caller to publish; a missing error topic
/// means there is nothing to publish.
pub fn evaluate_request(store: &ConfigStore, input: &OpaInput, fetched: FetchOutcome) -> (r: (
    Result<String, Router>,
    Option<Report>,
))
    requires
        store.wf(),
    ensures
        r.0 is Ok ==> r.1 is None,
        r.0 matches Err(e) ==> (r.1 is Some <==> has_topic(
            store.snapshot().kafka.topics@,
            "error"@,
        )) && (r.1 matches Some(rep) ==> rep.topic@ == topic_target(
            store.snapshot().kafka.topics@,
            "error"@,
        ) && rep.payload@ == error_payload_json(e)),
        fetched is NotFound ==> r.0 == Err::<String, Router>(Router::Unauthorized),
        fetched matches FetchOutcome::Upstream(s) ==> r.0 == Err::<String, Router>(
            Router::Unavailable(s),
        ),
        fetched matches FetchOutcome::NetworkError(m) ==> r.0 == Err::<String, Router>(
            Router::Internal(m),
        ),
        fetched is Success && store.snapshot().policy is None ==> r.0 == Err::<String, Router>(
            Router::NotInitialized,
        ),
        fetched is Success && store.snapshot().policy is Some ==> exists|o: EngineOutcome|
            finish_matches(r.0, o),
{
    let snapshot = store.read();
    let data = match resolve_identity(fetched) {
        Ok(d) => d,
        Err(e) => {
            let rep = error_report(&store.read().kafka, &e);
            return (Err(e), rep);
        },
    };
    match evaluate(snapshot, input, &data) {
        Ok(s) => (Ok(s), None),
        Err(e) => {
            let rep = error_report(&store.read().kafka, &e);
            (Err(e), rep)
        },
    }
}

} // verus!
