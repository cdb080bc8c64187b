//! Composition around the external identity provider: the addresses the
//! service asks, and the search through what comes back. The HTTP calls
//! themselves live with the caller; the decisions are made here.

use vstd::prelude::*;
use vstd::string::StringExecFns;
use crate::json::{int_dec_str, push_i64};

verus! {

/// Who pushed: the provider they came through and their id there.
#[derive(Debug, Clone)]
pub struct KratosData {
    pub provider_id: String,
    pub user_id: i64,
}

/// One OIDC provider entry inside an identity's credentials.
#[derive(Debug, Clone)]
pub struct OidcProvider {
    pub subject: String,
    pub provider: String,
    pub initial_access_token: String,
}

/// The address that lists identities matching a credential identifier.
pub fn identities_query_addr(addr: &str, user: &KratosData) -> (r: String)
    ensures
        r@ == addr@ + "/identities?credentials.identifier="@ + user.provider_id@ + ":"@
            + int_dec_str(user.user_id as int),
{
    let mut out = addr.to_owned();
    out.append("/identities?credentials.identifier=");
    out.append(user.provider_id.as_str());
    out.append(":");
    push_i64(&mut out, user.user_id);
    out
}

/// The address that returns one identity with its OIDC credentials.
pub fn identity_oidc_addr(addr: &str, id: &str) -> (r: String)
    ensures
        r@ == addr@ + "/identities/"@ + id@ + "?include_credential=oidc"@,
{
    let mut out = addr.to_owned();
    out.append("/identities/");
    out.append(id);
    out.append("?include_credential=oidc");
    out
}

/// Whether a provider entry is the pusher: its subject is the pusher's
/// id in decimal and its provider name matches.
pub open spec fn provider_matches(p: OidcProvider, user: KratosData) -> bool {
    p.subject@ == int_dec_str(user.user_id as int) && p.provider@ == user.provider_id@
}

/// Finds the first provider entry belonging to the pusher, if any: the
/// index of the first match, and none exactly when no entry matches.
pub fn match_provider(providers: &Vec<OidcProvider>, user: &KratosData) -> (r: Option<usize>)
    ensures
        r matches Some(i) ==> i < providers@.len() && provider_matches(providers@[i as int], *user)
            && (forall|k: int| 0 <= k < i ==> !provider_matches(#[trigger] providers@[k], *user)),
        r is None <==> (forall|k: int|
            0 <= k < providers@.len() ==> !provider_matches(#[trigger] providers@[k], *user)),
{
    let needle = crate::json::int_str(user.user_id);
    let n = providers.len();
    let mut i: usize = 0;
    while i < n
        invariant
            n == providers@.len(),
            i <= n,
            needle@ == int_dec_str(user.user_id as int),
            forall|k: int| 0 <= k < i ==> !provider_matches(#[trigger] providers@[k], *user),
        decreases n - i,
    {
        if providers[i].subject.eq(&needle) && providers[i].provider.eq(&user.provider_id) {
            return Some(i);
        }
        i = i + 1;
    }
    None
}

/// The decision inside one identity lookup: if any provider entry in
/// the identity's credentials belongs to the pusher, hand back that
/// entry's access token together with the identity's id.
pub fn token_for_identity(id: &String, providers: &Vec<OidcProvider>, user: &KratosData) -> (r:
    Option<(String, String)>)
    ensures
        r is None <==> (forall|k: int|
            0 <= k < providers@.len() ==> !provider_matches(#[trigger] providers@[k], *user)),
        r matches Some(t) ==> exists|i: int|
            0 <= i < providers@.len() && provider_matches(#[trigger] providers@[i], *user) && t.0
                == providers@[i].initial_access_token && t.1 == *id,
{
    match match_provider(providers, user) {
        Some(i) => Some((providers[i].initial_access_token.clone(), id.clone())),
        None => None,
    }
}

} // verus!
