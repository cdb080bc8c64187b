//! The request log line: one JSON-shaped record per request, formatted
//! exactly. The surrounding transport gathers the fields; this module
//! only renders them.

use vstd::prelude::*;
use vstd::string::StringExecFns;
use crate::json::{dec_str, push_u64};

verus! {

/// What one request log line holds. The duration arrives already
/// rendered, since it is measured outside this library.
#[derive(Debug, Clone)]
pub struct LogData {
    pub correlation_id: String,
    pub ip: String,
    pub duration: String,
    pub method: String,
    pub uri: String,
    pub status: u16,
    pub referer: String,
}

/// The log line for one record: every field in order, the status in
/// decimal, the values inserted as they are.
pub open spec fn log_line(d: LogData) -> Seq<char> {
    "{\"correlation_id\":\""@ + d.correlation_id@ + "\",\"ipadress\":\""@ + d.ip@
        + "\",\"duration\":\""@ + d.duration@ + "\",\"method\":\""@ + d.method@ + "\",\"uri\":\""@
        + d.uri@ + "\",\"status\":\""@ + dec_str(d.status as nat) + "\",\"referer\":\""@
        + d.referer@ + "\"}"@
}

/// Formats one request log record; the output is exactly `log_line`.
pub fn log_formater(data: &LogData) -> (r: String)
    ensures
        r@ == log_line(*data),
{
    let mut out = "{\"correlation_id\":\"".to_owned();
    out.append(data.correlation_id.as_str());
    out.append("\",\"ipadress\":\"");
    out.append(data.ip.as_str());
    out.append("\",\"duration\":\"");
    out.append(data.duration.as_str());
    out.append("\",\"method\":\"");
    out.append(data.method.as_str());
    out.append("\",\"uri\":\"");
    out.append(data.uri.as_str());
    out.append("\",\"status\":\"");
    push_u64(&mut out, data.status as u64);
    out.append("\",\"referer\":\"");
    out.append(data.referer.as_str());
    out.append("\"}");
    out
}

} // verus!
