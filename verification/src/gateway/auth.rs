//! Credentials presented by gateway clients and the identities that an
//! authenticator resolves them to.

use vstd::prelude::*;

use crate::gateway::policy::GatewayError;

verus! {

/// Credential bundle presented by a connecting client, passed verbatim to
/// the authenticator.
#[derive(Clone, Debug)]
pub struct Credentials {
    /// Raw token or encoded credential string.
    pub token: String,
}

/// An authenticated principal and the claims the authenticator attached.
#[derive(Clone, Debug)]
pub struct Identity {
    /// Principal name (user name, service account, ...).
    pub principal: String,
    /// Key-value claims produced by the authenticator.
    pub claims: std::collections::HashMap<String, String>,
}

/// Authenticates gateway clients; implementations live with the backend
/// (RADIUS, LDAP, static tokens, ...).
pub trait GatewayAuthenticator {
    /// Validates `credentials` and resolves the caller's identity; fails
    /// when the credentials are invalid or the backend fails.
    fn authenticate(&self, credentials: Credentials) -> Result<Identity, GatewayError>;
}

} // verus!
