//! A rule-based authorization policy, read from a TOML rule set.
//!
//! Rules are tried in order. A rule applies when its principal is `*` or the
//! connecting principal; it allows the connection when one of its host
//! patterns matches the target. When no rule allows it, the connection is
//! denied.
//!
//! A host entry of the form `host:port` whose port parses as a `u16` must
//! match the target exactly; any other entry is a prefix of the target's
//! `host:port` text (so `192.168.1.` matches every port of that /24, and a
//! bare host name matches that host on any port).

use vstd::prelude::*;

use crate::gateway::auth::Identity;
use crate::gateway::policy::{
    AuthzDecision, GatewayError, GatewayPolicy, TargetHost, split_host_port, split_host_port_chars,
};
use crate::text::{
    append_chars, chars_eq, chars_start_with, dec_digits, decimal_chars, lemma_dec_digits, lemma_last_index_of,
    lemma_parse_u16_of_dec, str_chars, string_from_chars,
};

verus! {

/// A parsed host entry.
#[derive(Clone, Debug)]
pub enum HostPattern {
    /// Host and port must both equal the target's.
    Exact { host: String, port: u16 },
    /// The target's `host:port` text must start with this prefix.
    Prefix(String),
}

/// A host entry as characters.
pub ghost enum HostPatternView {
    Exact { host: Seq<char>, port: u16 },
    Prefix(Seq<char>),
}

impl View for HostPattern {
    type V = HostPatternView;

    open spec fn view(&self) -> HostPatternView {
        match self {
            HostPattern::Exact { host, port } => HostPatternView::Exact { host: host@, port: *port },
            HostPattern::Prefix(p) => HostPatternView::Prefix(p@),
        }
    }
}

/// The target as text: `host:port`, with the port in decimal.
pub open spec fn target_text(host: Seq<char>, port: u16) -> Seq<char> {
    host.push(':') + dec_digits(port as nat)
}

/// Whether a pattern matches the target `host`:`port`.
pub open spec fn pattern_matches(p: HostPatternView, host: Seq<char>, port: u16) -> bool {
    match p {
        HostPatternView::Exact { host: h, port: pt } => host == h && port == pt,
        HostPatternView::Prefix(prefix) => prefix.is_prefix_of(target_text(host, port)),
    }
}

/// The pattern a host entry stands for: exact when it splits into a host and
/// a `u16` port at its last `:`, a prefix otherwise.
pub open spec fn host_pattern_of(entry: Seq<char>) -> HostPatternView {
    match split_host_port(entry) {
        Some((h, p)) => HostPatternView::Exact { host: h, port: p },
        None => HostPatternView::Prefix(entry),
    }
}

impl HostPattern {
    /// Whether the pattern matches the target `target_host`:`target_port`.
    pub fn matches(&self, target_host: &str, target_port: u16) -> (r: bool)
        ensures
            r == pattern_matches(self@, target_host@, target_port),
    {
        match self {
            HostPattern::Exact { host, port } => {
                let h = str_chars(host.as_str());
                let t = str_chars(target_host);
                chars_eq(&t, &h) && target_port == *port
            },
            HostPattern::Prefix(prefix) => {
                let mut t = str_chars(target_host);
                t.push(':');
                let digits = decimal_chars(target_port as u64);
                append_chars(&mut t, &digits);
                let p = str_chars(prefix.as_str());
                chars_start_with(&t, &p)
            },
        }
    }
}

/// Parses a host entry of a rule.
pub fn parse_host_pattern(entry: String) -> (r: HostPattern)
    ensures
        r@ == host_pattern_of(entry@),
{
    let chars = str_chars(entry.as_str());
    match split_host_port_chars(&chars) {
        Some((host, port)) => HostPattern::Exact { host: string_from_chars(&host), port },
        None => HostPattern::Prefix(entry),
    }
}

/// A host entry without `:` is a prefix pattern, and it matches that host
/// on every port.
pub proof fn lemma_bare_host_matches_any_port(entry: Seq<char>, port: u16)
    requires
        forall|i: int| 0 <= i < entry.len() ==> entry[i] != ':',
    ensures
        host_pattern_of(entry) == HostPatternView::Prefix(entry),
        pattern_matches(host_pattern_of(entry), entry, port),
{
    lemma_last_index_of(entry, ':');
    assert(entry =~= target_text(entry, port).subrange(0, entry.len() as int));
}

/// An entry written `host:port` (the port in decimal) matches exactly that
/// host on exactly that port.
pub proof fn lemma_host_port_entry_is_exact(host: Seq<char>, port: u16)
    ensures
        host_pattern_of(target_text(host, port)) == (HostPatternView::Exact { host, port }),
{
    let d = dec_digits(port as nat);
    let e = target_text(host, port);
    lemma_dec_digits(port as nat);
    lemma_parse_u16_of_dec(port);
    lemma_last_index_of(e, ':');
    let k = host.len() as int;
    assert(e[k] == ':');
    assert forall|j: int| k < j < e.len() implies e[j] != ':' by {
        assert(e[j] == d[j - k - 1]);
    }
    assert(e.subrange(k + 1, e.len() as int) =~= d);
    assert(e.subrange(0, k) =~= host);
}

/// With no rules, every connection is denied.
pub proof fn lemma_no_rules_deny(principal: Seq<char>, host: Seq<char>, port: u16)
    ensures
        decide(Seq::empty(), principal, host, port) == AuthzDecision::Deny,
{
}

/// A rule as read from the policy file: a principal (or `*`) and its host
/// entries.
#[derive(Clone, Debug)]
pub struct RawRule {
    pub principal: String,
    pub hosts: Vec<String>,
}

/// A parsed rule.
#[derive(Clone, Debug)]
pub struct PolicyRule {
    /// Exact principal name, or `*` for any authenticated identity.
    pub principal: String,
    pub hosts: Vec<HostPattern>,
}

/// A rule as characters and pattern views.
pub ghost struct PolicyRuleView {
    pub principal: Seq<char>,
    pub hosts: Seq<HostPatternView>,
}

pub open spec fn rule_view(r: PolicyRule) -> PolicyRuleView {
    PolicyRuleView { principal: r.principal@, hosts: r.hosts@.map_values(|h: HostPattern| h@) }
}

/// The rule that a raw rule parses to.
pub open spec fn parse_rule(r: RawRule) -> PolicyRuleView {
    PolicyRuleView {
        principal: r.principal@,
        hosts: r.hosts@.map_values(|h: String| host_pattern_of(h@)),
    }
}

/// A rule's principal covers `principal`: it is `*` or equal to it.
pub open spec fn principal_matches(rule_principal: Seq<char>, principal: Seq<char>) -> bool {
    rule_principal == seq!['*'] || rule_principal == principal
}

/// Some rule whose principal covers `principal` has a host pattern that
/// matches the target.
pub open spec fn rules_allow(rules: Seq<PolicyRuleView>, principal: Seq<char>, host: Seq<char>, port: u16) -> bool {
    exists|i: int, j: int|
        #![trigger rules[i].hosts[j]]
        0 <= i < rules.len() && principal_matches(rules[i].principal, principal) && 0 <= j
            < rules[i].hosts.len() && pattern_matches(rules[i].hosts[j], host, port)
}

/// The decision for `principal` reaching `host`:`port` under `rules`.
pub open spec fn decide(rules: Seq<PolicyRuleView>, principal: Seq<char>, host: Seq<char>, port: u16) -> AuthzDecision {
    if rules_allow(rules, principal, host, port) {
        AuthzDecision::Allow
    } else {
        AuthzDecision::Deny
    }
}

/// A rule-based authorization policy.
pub struct StaticFilePolicy {
    rules: Vec<PolicyRule>,
}

impl View for StaticFilePolicy {
    type V = Seq<PolicyRuleView>;

    closed spec fn view(&self) -> Seq<PolicyRuleView> {
        self.rules@.map_values(|r: PolicyRule| rule_view(r))
    }
}

impl StaticFilePolicy {
    /// The policy made of `rules`, in order, each host entry parsed.
    pub fn from_raw_rules(rules: Vec<RawRule>) -> (r: StaticFilePolicy)
        ensures
            r@ == rules@.map_values(|raw: RawRule| parse_rule(raw)),
    {
        let mut out: Vec<PolicyRule> = Vec::new();
        let n = rules.len();
        for i in 0..n
            invariant
                n == rules@.len(),
                out@.len() == i,
                forall|k: int| 0 <= k < i ==> rule_view(#[trigger] out@[k]) == parse_rule(rules@[k]),
        {
            let raw = &rules[i];
            let mut hosts: Vec<HostPattern> = Vec::new();
            let m = raw.hosts.len();
            for j in 0..m
                invariant
                    m == raw.hosts@.len(),
                    hosts@.len() == j,
                    forall|k: int| 0 <= k < j ==> (#[trigger] hosts@[k])@ == host_pattern_of(raw.hosts@[k]@),
            {
                let entry = raw.hosts[j].clone();
                hosts.push(parse_host_pattern(entry));
            }
            let rule = PolicyRule { principal: raw.principal.clone(), hosts };
            assert(rule_view(rule).hosts =~= parse_rule(*raw).hosts);
            out.push(rule);
        }
        let r = StaticFilePolicy { rules: out };
        assert(r@ =~= rules@.map_values(|raw: RawRule| parse_rule(raw)));
        r
    }

    /// The decision for `principal` reaching `target_host`:`target_port`:
    /// allowed when some rule covering the principal has a matching host
    /// pattern, denied otherwise.
    pub fn evaluate(&self, principal: &str, target_host: &str, target_port: u16) -> (r: AuthzDecision)
        ensures
            r == decide(self@, principal@, target_host@, target_port),
    {
        let p = str_chars(principal);
        let star = vec!['*'];
        let n = self.rules.len();
        for i in 0..n
            invariant
                n == self.rules@.len(),
                p@ == principal@,
                star@ == seq!['*'],
                forall|i2: int, j: int|
                    #![trigger self@[i2].hosts[j]]
                    0 <= i2 < i && principal_matches(self@[i2].principal, principal@) && 0 <= j
                        < self@[i2].hosts.len() ==> !pattern_matches(self@[i2].hosts[j], target_host@, target_port),
        {
            let rule = &self.rules[i];
            let rp = str_chars(rule.principal.as_str());
            let covers = chars_eq(&rp, &star) || chars_eq(&rp, &p);
            assert(self@[i as int] == rule_view(*rule));
            if covers {
                assert(principal_matches(self@[i as int].principal, principal@));
                let m = rule.hosts.len();
                for j in 0..m
                    invariant
                        m == rule.hosts@.len(),
                        0 <= i < self@.len(),
                        self@[i as int] == rule_view(*rule),
                        principal_matches(self@[i as int].principal, principal@),
                        forall|j2: int|
                            0 <= j2 < j ==> !pattern_matches(
                                #[trigger] self@[i as int].hosts[j2],
                                target_host@,
                                target_port,
                            ),
                {
                    assert(self@[i as int].hosts[j as int] == rule.hosts@[j as int]@);
                    if rule.hosts[j].matches(target_host, target_port) {
                        assert(rules_allow(self@, principal@, target_host@, target_port));
                        return AuthzDecision::Allow;
                    }
                }
            }
        }
        AuthzDecision::Deny
    }
}

impl GatewayPolicy for StaticFilePolicy {
    /// Evaluates the rules for the identity's principal and the target;
    /// never fails.
    fn authorize(&self, identity: &Identity, target: &TargetHost) -> (r: Result<AuthzDecision, GatewayError>)
        ensures
            r == Ok::<AuthzDecision, GatewayError>(
                decide(self@, identity.principal@, target.host@, target.port),
            ),
    {
        Ok(self.evaluate(identity.principal.as_str(), target.host.as_str(), target.port))
    }
}

} // verus!
