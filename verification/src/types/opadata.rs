//! The identity document handed to the policy engine as `data`: the
//! subject's id, traits and role grants, with a serializer whose output
//! is pinned down exactly.

use vstd::prelude::*;
use crate::json::{int_dec_str, json_str, push_i64, push_json_str, push_key};

verus! {

/// One private-project grant: the project key and the granted role.
#[derive(Debug, Clone)]
pub struct PrivateProject {
    pub key: i64,
    pub value: String,
}

/// The subject's display name.
#[derive(Debug, Clone)]
pub struct Name {
    pub first: String,
    pub last: String,
}

/// The subject's role and attribute grants.
#[derive(Debug, Clone)]
pub struct Roles {
    pub organizations: Vec<String>,
    pub private_projects: Vec<PrivateProject>,
    pub scopes: Vec<String>,
    pub affiliate_projects: Vec<String>,
}

/// The subject's traits: contact, name and grants.
#[derive(Debug, Clone)]
pub struct Traits {
    pub email: String,
    pub name: Name,
    pub roles: Roles,
}

/// The resolved identity record for one subject.
#[derive(Debug, Clone)]
pub struct Opadata {
    pub id: String,
    pub traits: Traits,
    pub created_at: String,
    pub updated_at: String,
}

/// The JSON items of an array of strings, separated by commas.
pub open spec fn str_items(v: Seq<String>) -> Seq<char>
    decreases v.len(),
{
    if v.len() == 0 {
        Seq::<char>::empty()
    } else if v.len() == 1 {
        json_str(v[0]@)
    } else {
        str_items(v.drop_last()) + seq![','] + json_str(v.last()@)
    }
}

/// A JSON array of strings.
pub open spec fn str_array_json(v: Seq<String>) -> Seq<char> {
    seq!['['] + str_items(v) + seq![']']
}

/// The JSON rendering of one private-project grant.
pub open spec fn private_project_json(p: PrivateProject) -> Seq<char> {
    seq!['{'] + json_str("key"@) + seq![':'] + int_dec_str(p.key as int) + seq![','] + json_str(
        "value"@,
    ) + seq![':'] + json_str(p.value@) + seq!['}']
}

/// The JSON items of an array of private-project grants.
pub open spec fn private_project_items(v: Seq<PrivateProject>) -> Seq<char>
    decreases v.len(),
{
    if v.len() == 0 {
        Seq::<char>::empty()
    } else if v.len() == 1 {
        private_project_json(v[0])
    } else {
        private_project_items(v.drop_last()) + seq![','] + private_project_json(v.last())
    }
}

/// A JSON array of private-project grants.
pub open spec fn private_project_array_json(v: Seq<PrivateProject>) -> Seq<char> {
    seq!['['] + private_project_items(v) + seq![']']
}

/// The JSON rendering of the name object.
pub open spec fn name_json(n: Name) -> Seq<char> {
    seq!['{'] + json_str("first"@) + seq![':'] + json_str(n.first@) + seq![','] + json_str(
        "last"@,
    ) + seq![':'] + json_str(n.last@) + seq!['}']
}

/// The JSON rendering of the roles object.
pub open spec fn roles_json(r: Roles) -> Seq<char> {
    seq!['{'] + json_str("organizations"@) + seq![':'] + str_array_json(r.organizations@) + seq![
        ',',
    ] + json_str("private_projects"@) + seq![':'] + private_project_array_json(
        r.private_projects@,
    ) + seq![','] + json_str("scopes"@) + seq![':'] + str_array_json(r.scopes@) + seq![',']
        + json_str("affiliate_projects"@) + seq![':'] + str_array_json(r.affiliate_projects@)
        + seq!['}']
}

/// The JSON rendering of the traits object.
pub open spec fn traits_json(t: Traits) -> Seq<char> {
    seq!['{'] + json_str("email"@) + seq![':'] + json_str(t.email@) + seq![','] + json_str(
        "name"@,
    ) + seq![':'] + name_json(t.name) + seq![','] + json_str("roles"@) + seq![':'] + roles_json(
        t.roles,
    ) + seq!['}']
}

/// The JSON rendering of the whole identity document.
pub open spec fn opadata_json(d: Opadata) -> Seq<char> {
    seq!['{'] + json_str("id"@) + seq![':'] + json_str(d.id@) + seq![','] + json_str("traits"@)
        + seq![':'] + traits_json(d.traits) + seq![','] + json_str("created_at"@) + seq![':']
        + json_str(d.created_at@) + seq![','] + json_str("updated_at"@) + seq![':'] + json_str(
        d.updated_at@,
    ) + seq!['}']
}

/// Appends a JSON array holding the given strings.
pub fn push_str_array(out: &mut String, v: &Vec<String>)
    ensures
        final(out)@ == old(out)@ + str_array_json(v@),
{
    out.push('[');
    let n = v.len();
    let mut i: usize = 0;
    while i < n
        invariant
            n == v@.len(),
            i <= n,
            out@ == old(out)@.push('[') + str_items(v@.subrange(0, i as int)),
        decreases n - i,
    {
        if i > 0 {
            out.push(',');
        }
        push_json_str(out, v[i].as_str());
        proof {
            let pre = v@.subrange(0, i as int);
            let post = v@.subrange(0, i + 1 as int);
            assert(post.drop_last() =~= pre);
            assert(post.last() == v@[i as int]);
        }
        i = i + 1;
    }
    out.push(']');
    proof {
        assert(v@.subrange(0, v@.len() as int) =~= v@);
        assert(final(out)@ =~= old(out)@ + str_array_json(v@));
    }
}

/// Appends the JSON rendering of one private-project grant.
pub fn push_private_project(out: &mut String, p: &PrivateProject)
    ensures
        final(out)@ == old(out)@ + private_project_json(*p),
{
    out.push('{');
    push_key(out, "key");
    push_i64(out, p.key);
    out.push(',');
    push_key(out, "value");
    push_json_str(out, p.value.as_str());
    out.push('}');
    assert(final(out)@ =~= old(out)@ + private_project_json(*p));
}

/// Appends a JSON array holding the given private-project grants.
pub fn push_private_project_array(out: &mut String, v: &Vec<PrivateProject>)
    ensures
        final(out)@ == old(out)@ + private_project_array_json(v@),
{
    out.push('[');
    let n = v.len();
    let mut i: usize = 0;
    while i < n
        invariant
            n == v@.len(),
            i <= n,
            out@ == old(out)@.push('[') + private_project_items(v@.subrange(0, i as int)),
        decreases n - i,
    {
        if i > 0 {
            out.push(',');
        }
        push_private_project(out, &v[i]);
        proof {
            let pre = v@.subrange(0, i as int);
            let post = v@.subrange(0, i + 1 as int);
            assert(post.drop_last() =~= pre);
            assert(post.last() == v@[i as int]);
        }
        i = i + 1;
    }
    out.push(']');
    proof {
        assert(v@.subrange(0, v@.len() as int) =~= v@);
        assert(final(out)@ =~= old(out)@ + private_project_array_json(v@));
    }
}

/// Appends the JSON rendering of the name object.
pub fn push_name(out: &mut String, n: &Name)
    ensures
        final(out)@ == old(out)@ + name_json(*n),
{
    out.push('{');
    push_key(out, "first");
    push_json_str(out, n.first.as_str());
    out.push(',');
    push_key(out, "last");
    push_json_str(out, n.last.as_str());
    out.push('}');
    assert(final(out)@ =~= old(out)@ + name_json(*n));
}

/// Appends the JSON rendering of the roles object.
pub fn push_roles(out: &mut String, r: &Roles)
    ensures
        final(out)@ == old(out)@ + roles_json(*r),
{
    out.push('{');
    push_key(out, "organizations");
    push_str_array(out, &r.organizations);
    out.push(',');
    push_key(out, "private_projects");
    push_private_project_array(out, &r.private_projects);
    out.push(',');
    push_key(out, "scopes");
    push_str_array(out, &r.scopes);
    out.push(',');
    push_key(out, "affiliate_projects");
    push_str_array(out, &r.affiliate_projects);
    out.push('}');
    assert(final(out)@ =~= old(out)@ + roles_json(*r));
}

/// Appends the JSON rendering of the traits object.
pub fn push_traits(out: &mut String, t: &Traits)
    ensures
        final(out)@ == old(out)@ + traits_json(*t),
{
    out.push('{');
    push_key(out, "email");
    push_json_str(out, t.email.as_str());
    out.push(',');
    push_key(out, "name");
    push_name(out, &t.name);
    out.push(',');
    push_key(out, "roles");
    push_roles(out, &t.roles);
    out.push('}');
    assert(final(out)@ =~= old(out)@ + traits_json(*t));
}

impl Opadata {
    /// Serializes the identity document; the output is exactly
    /// `opadata_json`.
    pub fn to_json(&self) -> (r: String)
        ensures
            r@ == opadata_json(*self),
    {
        let mut out = String::new();
        out.push('{');
        push_key(&mut out, "id");
        push_json_str(&mut out, self.id.as_str());
        out.push(',');
        push_key(&mut out, "traits");
        push_traits(&mut out, &self.traits);
        out.push(',');
        push_key(&mut out, "created_at");
        push_json_str(&mut out, self.created_at.as_str());
        out.push(',');
        push_key(&mut out, "updated_at");
        push_json_str(&mut out, self.updated_at.as_str());
        out.push('}');
        assert(out@ =~= opadata_json(*self));
        out
    }
}

} // verus!
