//! Authorization: the target a client asks for, the decision, and the trait
//! that policies implement.

use vstd::prelude::*;

use crate::gateway::auth::Identity;
use crate::text::{
    chars_range, last_index_of, lemma_last_index_of, parse_u16, parse_u16_spec, rfind_char, str_chars,
    string_from_chars,
};

verus! {

/// A host the client wishes to reach.
#[derive(Clone, Debug)]
pub struct TargetHost {
    /// Host name or IP address of the RDP server.
    pub host: String,
    /// TCP port (typically 3389).
    pub port: u16,
}

/// `d` split at its last `:` into a host and a port that parses as a `u16`;
/// `None` when there is no `:` or the port does not parse.
pub open spec fn split_host_port(d: Seq<char>) -> Option<(Seq<char>, u16)> {
    match last_index_of(d, ':') {
        None => None,
        Some(k) => match parse_u16_spec(d.subrange(k + 1, d.len() as int)) {
            None => None,
            Some(port) => Some((d.subrange(0, k), port)),
        },
    }
}

/// Splits `d` at its last `:` and parses the port.
pub fn split_host_port_chars(d: &Vec<char>) -> (r: Option<(Vec<char>, u16)>)
    ensures
        match split_host_port(d@) {
            Some((h, p)) => r matches Some((hv, pv)) && hv@ == h && pv == p,
            None => r is None,
        },
{
    proof {
        lemma_last_index_of(d@, ':');
    }
    match rfind_char(d, ':') {
        None => None,
        Some(k) => {
            let len = d.len();
            assert(k < len);
            let port_chars = chars_range(d, k + 1, len);
            match parse_u16(&port_chars) {
                None => None,
                Some(port) => Some((chars_range(d, 0, k), port)),
            }
        },
    }
}

impl TargetHost {
    /// Splits a `"host:port"` destination at its last `:`; `None` when there
    /// is no `:` or the port is not a `u16`.
    pub fn from_destination(destination: &str) -> (r: Option<TargetHost>)
        ensures
            match split_host_port(destination@) {
                Some((h, p)) => r matches Some(t) && t.host@ == h && t.port == p,
                None => r is None,
            },
    {
        let chars = str_chars(destination);
        match split_host_port_chars(&chars) {
            None => None,
            Some((host, port)) => Some(TargetHost { host: string_from_chars(&host), port }),
        }
    }
}

/// Whether an identity may reach a target.
#[derive(Clone, Copy, Debug, PartialEq, Eq, Structural)]
pub enum AuthzDecision {
    /// The identity may connect to the target.
    Allow,
    /// The connection must be refused.
    Deny,
}

/// A failure of an authentication or policy backend (not a refusal).
#[derive(Clone, Debug)]
pub struct GatewayError {
    pub message: String,
}

/// Decides whether an authenticated identity may reach a target host.
/// A refusal is `Ok(AuthzDecision::Deny)`; an error is kept for backend
/// failures.
pub trait GatewayPolicy {
    fn authorize(&self, identity: &Identity, target: &TargetHost) -> Result<AuthzDecision, GatewayError>;
}

} // verus!
