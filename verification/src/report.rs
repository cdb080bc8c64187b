//! The best-effort error side channel: given the broker configuration
//! of the current snapshot and a pipeline error, produce the one message
//! to publish — or nothing, when no error topic is configured. The
//! publish itself is I/O and lives with the caller; failures there are
//! logged and never escalate.

use vstd::prelude::*;
use crate::config::{has_topic, Kafka, Topic};
use crate::error::{router_message, Router};
use crate::json::{json_str, push_json_str, push_key};

verus! {

/// The record published for one failure.
#[derive(Debug, Clone)]
pub struct Data {
    pub code: String,
    pub message: String,
}

/// The JSON rendering of an error record.
pub open spec fn data_json(d: Data) -> Seq<char> {
    seq!['{'] + json_str("code"@) + seq![':'] + json_str(d.code@) + seq![','] + json_str(
        "message"@,
    ) + seq![':'] + json_str(d.message@) + seq!['}']
}

impl Data {
    /// Serializes the record; the output is exactly `data_json`.
    pub fn to_json(&self) -> (r: String)
        ensures
            r@ == data_json(*self),
    {
        let mut out = String::new();
        out.push('{');
        push_key(&mut out, "code");
        push_json_str(&mut out, self.code.as_str());
        out.push(',');
        push_key(&mut out, "message");
        push_json_str(&mut out, self.message.as_str());
        out.push('}');
        assert(out@ =~= data_json(*self));
        out
    }
}

/// One message ready to publish: the physical topic and the payload.
#[derive(Debug, Clone)]
pub struct Report {
    pub topic: String,
    pub payload: String,
}

/// The physical target of the topic with the given logical name; under
/// unique topic names there is exactly one.
pub open spec fn topic_target(ts: Seq<Topic>, name: Seq<char>) -> Seq<char> {
    let i = choose|i: int| 0 <= i < ts.len() && ts[i].name@ == name;
    ts[i].target@
}

/// The payload published for one failure: the fixed code and the
/// error's fixed message.
pub open spec fn error_payload_json(e: Router) -> Seq<char> {
    seq!['{'] + json_str("code"@) + seq![':'] + json_str("opa_error"@) + seq![','] + json_str(
        "message"@,
    ) + seq![':'] + json_str(router_message(e)) + seq!['}']
}

/// Builds the one error report for a failure: looks the "error" topic
/// up in the given (current) broker configuration and serializes a
/// `{code, message}` record. Returns nothing exactly when no error
/// topic is configured.
pub fn error_report(k: &Kafka, e: &Router) -> (r: Option<Report>)
    requires
        k.wf(),
    ensures
        r is Some <==> has_topic(k.topics@, "error"@),
        r matches Some(rep) ==> rep.topic@ == topic_target(k.topics@, "error"@) && rep.payload@
            == error_payload_json(*e),
{
    let name = "error".to_owned();
    let target = match k.lookup_topic(&name) {
        Some(t) => t.clone(),
        None => {
            return None;
        },
    };
    proof {
        assert(exists|i: int|
            0 <= i < k.topics@.len() && (#[trigger] k.topics@[i]).name@ == "error"@ && target@
                == k.topics@[i].target@);
        let i = choose|i: int|
            0 <= i < k.topics@.len() && (#[trigger] k.topics@[i]).name@ == "error"@ && target@
                == k.topics@[i].target@;
        let j = choose|j: int| 0 <= j < k.topics@.len() && k.topics@[j].name@ == "error"@;
        if i != j {
            if i < j {
                assert(k.topics@[i].name@ != k.topics@[j].name@);
            } else {
                assert(k.topics@[j].name@ != k.topics@[i].name@);
            }
        }
        assert(target@ == topic_target(k.topics@, "error"@));
    }
    let record = Data { code: "opa_error".to_owned(), message: e.message() };
    let payload = record.to_json();
    assert(payload@ =~= error_payload_json(*e));
    Some(Report { topic: target, payload })
}

} // verus!
