//! The documents exchanged with the policy engine: the `input` document
//! built from the request facts, and the decision document returned to
//! the caller.

use vstd::prelude::*;
use crate::json::{int_dec_str, json_str, push_json_str, push_key};
use crate::types::input::Input;

verus! {

/// The `input` document for one evaluation: the action being authorized.
#[derive(Debug, Clone)]
pub struct OpaInput {
    pub resource: String,
    pub method: String,
    pub uri: String,
    pub role: String,
}

/// The JSON rendering of an `input` document, field for field.
pub open spec fn opa_input_json(i: OpaInput) -> Seq<char> {
    seq!['{'] + json_str("resource"@) + seq![':'] + json_str(i.resource@) + seq![','] + json_str(
        "method"@,
    ) + seq![':'] + json_str(i.method@) + seq![','] + json_str("uri"@) + seq![':'] + json_str(
        i.uri@,
    ) + seq![','] + json_str("role"@) + seq![':'] + json_str(i.role@) + seq!['}']
}

impl OpaInput {
    /// Builds the engine's `input` document from the raw request facts and
    /// the caller's role claim; the numeric resource id is rendered in
    /// decimal.
    pub fn from_request(input: &Input, role: String) -> (r: OpaInput)
        ensures
            r.resource@ == int_dec_str(input.resource as int),
            r.method == input.method,
            r.uri == input.uri,
            r.role == role,
    {
        OpaInput {
            resource: crate::json::int_str(input.resource),
            method: input.method.clone(),
            uri: input.uri.clone(),
            role,
        }
    }

    /// Serializes the document; the output is exactly `opa_input_json`.
    pub fn to_json(&self) -> (r: String)
        ensures
            r@ == opa_input_json(*self),
    {
        let mut out = String::new();
        out.push('{');
        push_key(&mut out, "resource");
        push_json_str(&mut out, self.resource.as_str());
        out.push(',');
        push_key(&mut out, "method");
        push_json_str(&mut out, self.method.as_str());
        out.push(',');
        push_key(&mut out, "uri");
        push_json_str(&mut out, self.uri.as_str());
        out.push(',');
        push_key(&mut out, "role");
        push_json_str(&mut out, self.role.as_str());
        out.push('}');
        assert(out@ =~= opa_input_json(*self));
        out
    }
}

/// The decision document: whether the request is allowed.
#[derive(Debug, Clone)]
pub struct Response {
    pub validate: bool,
}

/// The JSON rendering of a decision document.
pub open spec fn response_json(r: Response) -> Seq<char> {
    seq!['{'] + json_str("validate"@) + seq![':'] + bool_str(r.validate) + seq!['}']
}

/// The bare JSON boolean for a decision.
pub open spec fn bool_str(b: bool) -> Seq<char> {
    if b {
        seq!['t', 'r', 'u', 'e']
    } else {
        seq!['f', 'a', 'l', 's', 'e']
    }
}

/// Appends `true` or `false`.
pub fn push_bool(out: &mut String, b: bool)
    ensures
        final(out)@ == old(out)@ + bool_str(b),
{
    if b {
        out.push('t');
        out.push('r');
        out.push('u');
        out.push('e');
    } else {
        out.push('f');
        out.push('a');
        out.push('l');
        out.push('s');
        out.push('e');
    }
    assert(final(out)@ =~= old(out)@ + bool_str(b));
}

impl Response {
    /// Serializes the decision as `{"validate":<bool>}`.
    pub fn to_json(&self) -> (r: String)
        ensures
            r@ == response_json(*self),
    {
        let mut out = String::new();
        out.push('{');
        push_key(&mut out, "validate");
        push_bool(&mut out, self.validate);
        out.push('}');
        assert(out@ =~= response_json(*self));
        out
    }

    /// Serializes the decision as the bare boolean, the stricter response
    /// mode.
    pub fn to_bare_json(&self) -> (r: String)
        ensures
            r@ == bool_str(self.validate),
    {
        let mut out = String::new();
        push_bool(&mut out, self.validate);
        out
    }
}

} // verus!
