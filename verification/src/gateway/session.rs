//! Metadata of an active relay session.

use vstd::prelude::*;

use crate::gateway::auth::Identity;
use crate::gateway::policy::TargetHost;

verus! {

#[verifier::external_type_specification]
#[verifier::external_body]
pub struct ExInstant(std::time::Instant);

/// `Instant` is `Copy`: its clone is the same instant.
pub assume_specification[ <std::time::Instant as Clone>::clone ](t: &std::time::Instant) -> (r: std::time::Instant)
    ensures
        r == *t,
;

/// Reads the clock (`Instant::now`); nothing is claimed of the result.
#[verifier::external_body]
fn instant_now() -> std::time::Instant {
    std::time::Instant::now()
}

/// Time since `t` (`Instant::elapsed`); nothing is claimed of the result.
#[verifier::external_body]
fn instant_elapsed(t: &std::time::Instant) -> std::time::Duration {
    t.elapsed()
}

/// Who connected to which host, and when.
#[derive(Clone, Debug)]
pub struct GatewaySession {
    pub identity: Identity,
    pub target: TargetHost,
    /// When the relay started.
    pub started_at: std::time::Instant,
}

impl GatewaySession {
    /// A session that starts now.
    pub fn new(identity: Identity, target: TargetHost) -> (r: GatewaySession)
        ensures
            r.identity == identity,
            r.target == target,
    {
        GatewaySession { identity, target, started_at: instant_now() }
    }

    /// Time since the session started.
    pub fn elapsed(&self) -> std::time::Duration {
        instant_elapsed(&self.started_at)
    }
}

} // verus!
