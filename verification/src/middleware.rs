//! Where the caller's identity comes from.
//!
//! The gateway trusts what an upstream layer has established. It carries the
//! identity; it does not check it.

use crate::text::{clone_text, has_prefix, starts_with};
use vstd::prelude::*;

verus! {

/// The claims of a bearer token.
#[derive(Clone, Debug, PartialEq, Eq)]
pub struct Claims {
    /// The subject: the caller's identity.
    pub sub: String,
    /// When the token expires.
    pub exp: usize,
    /// When the token was issued.
    pub iat: usize,
}

/// What an inbound request offers towards the caller's identity.
#[derive(Clone, Debug, PartialEq, Eq)]
pub struct IdentitySources {
    /// An identity that an upstream layer attached to the request.
    pub attached: Option<String>,
    /// The text of the identity header, where the request has one that is text.
    pub user_id_header: Option<String>,
    /// The text of the authorization header, where the request has one that is
    /// text.
    pub authorization: Option<String>,
}

/// The identity that `sources` resolve to: the attached one, else the one in
/// the identity header, else none. The authorization header plays no part.
pub open spec fn resolved(sources: IdentitySources) -> Option<Seq<char>> {
    match sources.attached {
        Some(id) => Some(id@),
        None => match sources.user_id_header {
            Some(id) => Some(id@),
            None => None,
        },
    }
}

/// Resolves the caller's identity. The first source that has one wins.
///
/// A bearer token is noticed (see [`carries_bearer_token`]) but never decoded:
/// its presence alone resolves nothing.
pub fn extract_user_id(sources: &IdentitySources) -> (r: Option<String>)
    ensures
        r.deep_view() == resolved(*sources),
{
    match &sources.attached {
        Some(id) => Some(id.clone()),
        None => clone_text(&sources.user_id_header),
    }
}

/// Whether `sources` hold an authorization header of the bearer scheme.
pub open spec fn has_bearer_token(sources: IdentitySources) -> bool {
    match sources.authorization {
        Some(value) => has_prefix(value@, "Bearer "@),
        None => false,
    }
}

/// Tells whether the request came with a bearer token.
pub fn carries_bearer_token(sources: &IdentitySources) -> (r: bool)
    ensures
        r == has_bearer_token(*sources),
{
    match &sources.authorization {
        Some(value) => starts_with(value.as_str(), "Bearer "),
        None => false,
    }
}

/// What the authorization header says has no bearing on the identity.
pub proof fn authorization_is_not_consulted(a: IdentitySources, b: IdentitySources)
    requires
        a.attached == b.attached,
        a.user_id_header == b.user_id_header,
    ensures
        resolved(a) == resolved(b),
{
}

/// A request resolves to no identity exactly when it has neither an attached
/// identity nor an identity header.
pub proof fn unresolved_means_no_source(sources: IdentitySources)
    ensures
        resolved(sources) is None <==> sources.attached is None && sources.user_id_header is None,
{
}

} // verus!
