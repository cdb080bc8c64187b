//! The identity provider's view of a subject: the records the service
//! reads when it resolves who is calling.

use vstd::prelude::*;

verus! {

/// One private-project grant as the identity provider reports it.
#[derive(Debug, Clone)]
pub struct PrivateProject {
    pub key: i64,
    pub value: String,
}

/// A subject's name: either a person's first and last name or an
/// organization's single name.
#[derive(Debug, Clone)]
pub enum Name {
    UserName { first: String, last: String },
    OrganizationName(String),
}

/// The subject's role and attribute grants as reported.
#[derive(Debug, Clone)]
pub struct Roles {
    pub organizations: Vec<String>,
    pub private_projects: Vec<PrivateProject>,
    pub scopes: Vec<String>,
    pub affiliate_projects: Vec<String>,
}

/// The subject's traits as reported.
#[derive(Debug, Clone)]
pub struct Traits {
    pub email: Option<String>,
    pub name: Name,
    pub roles: Option<Roles>,
    pub projects: Option<Vec<i32>>,
}

/// Administrative metadata attached to an identity.
#[derive(Debug, Clone)]
pub struct MetadataAdmin {
    pub roles: Option<Roles>,
}

/// A full identity record from the provider.
#[derive(Debug, Clone)]
pub struct OpaData {
    pub id: String,
    pub traits: Traits,
    pub created_at: String,
    pub updated_at: String,
    pub metadata_admin: MetadataAdmin,
}

} // verus!
