//! Admission of CONNECT requests against an allowlist of destination hosts.
//!
//! Every inbound request passes through [`decide`], which is the sole
//! authorization gate of the proxy: a request is accepted exactly when its
//! method is CONNECT, its target authority parses into a host, and that host
//! is on the allowlist. Acceptance carries the authority unchanged as the
//! address to dial; every rejection names its reason, from which the HTTP
//! status of the response follows.

use vstd::prelude::*;

use crate::authority::{opt_bytes_view, parse_host, parsed_host};

verus! {

/// The method of an inbound request, as far as admission cares: CONNECT, or
/// anything else.
#[derive(Clone, Copy, PartialEq, Eq, Structural, Debug)]
pub enum Method {
    Connect,
    Other,
}

/// Why a request was rejected.
#[derive(Clone, Copy, PartialEq, Eq, Structural, Debug)]
pub enum RejectReason {
    /// The method was not CONNECT.
    NotImplemented,
    /// The target carried no authority that parses into a host.
    MissingAuthority,
    /// The destination host is not on the allowlist.
    HostNotAllowed,
}

/// What admission saw of an inbound request: its method and its target
/// authority, when the target carried one.
pub struct RequestHead {
    pub method: Method,
    pub authority: Option<Vec<u8>>,
}

impl RequestHead {
    /// The authority as an optional byte sequence.
    pub open spec fn authority_view(&self) -> Option<Seq<u8>> {
        opt_bytes_view(self.authority)
    }
}

/// The admission decision: the authority to dial, exactly as the request
/// carried it, or the reason the request was turned away.
#[derive(Debug, PartialEq, Eq)]
pub enum Decision {
    Accepted { target: Vec<u8> },
    Rejected { reason: RejectReason },
}

/// The mathematical form of a [`Decision`], over byte sequences.
pub enum DecisionModel {
    Accept { target: Seq<u8> },
    Reject { reason: RejectReason },
}

impl View for Decision {
    type V = DecisionModel;

    open spec fn view(&self) -> DecisionModel {
        match self {
            Decision::Accepted { target } => DecisionModel::Accept { target: target@ },
            Decision::Rejected { reason } => DecisionModel::Reject { reason: *reason },
        }
    }
}

/// The HTTP status that answers a decision: 200 on acceptance, 501 for a
/// method other than CONNECT, 400 for a missing authority or a disallowed
/// host.
pub open spec fn status_of(d: DecisionModel) -> int {
    match d {
        DecisionModel::Accept { .. } => 200,
        DecisionModel::Reject { reason } => match reason {
            RejectReason::NotImplemented => 501,
            RejectReason::MissingAuthority => 400,
            RejectReason::HostNotAllowed => 400,
        },
    }
}

/// The decision admission owes a request: reject a method other than
/// CONNECT, then reject a target whose authority is absent or does not parse
/// into a host, then reject a host that is not allowed; what remains is
/// accepted, with the authority passed through unchanged.
pub open spec fn decide_model(m: Method, authority: Option<Seq<u8>>, hosts: Seq<Seq<u8>>) -> DecisionModel {
    if m != Method::Connect {
        DecisionModel::Reject { reason: RejectReason::NotImplemented }
    } else {
        match authority {
            None => DecisionModel::Reject { reason: RejectReason::MissingAuthority },
            Some(a) => match parsed_host(a) {
                None => DecisionModel::Reject { reason: RejectReason::MissingAuthority },
                Some(h) => if hosts.contains(h) {
                    DecisionModel::Accept { target: a }
                } else {
                    DecisionModel::Reject { reason: RejectReason::HostNotAllowed }
                },
            },
        }
    }
}

/// The set of destination hosts the proxy may tunnel to. Built once at
/// startup; never changed afterwards; matched by exact, case-sensitive
/// comparison.
pub struct AllowedHosts {
    hosts: Vec<Vec<u8>>,
}

impl View for AllowedHosts {
    type V = Seq<Seq<u8>>;

    closed spec fn view(&self) -> Seq<Seq<u8>> {
        self.hosts@.map_values(|v: Vec<u8>| v@)
    }
}

impl AllowedHosts {
    /// Builds the allowlist from the given hostnames.
    pub fn new(hosts: Vec<Vec<u8>>) -> (r: Self)
        ensures
            r@ == hosts@.map_values(|v: Vec<u8>| v@),
    {
        AllowedHosts { hosts }
    }

    /// True when `h` is one of the allowed hosts.
    pub open spec fn allows(&self, h: Seq<u8>) -> bool {
        self@.contains(h)
    }

    /// Membership test by exact byte comparison.
    pub fn contains_host(&self, h: &[u8]) -> (r: bool)
        ensures
            r == self.allows(h@),
    {
        let n = self.hosts.len();
        let mut i: usize = 0;
        while i < n
            invariant
                0 <= i <= n,
                n == self.hosts@.len(),
                self@ == self.hosts@.map_values(|v: Vec<u8>| v@),
                forall|k: int| 0 <= k < i ==> self@[k] != h@,
            decreases n - i,
        {
            if bytes_eq(self.hosts[i].as_slice(), h) {
                assert(self@[i as int] == h@);
                return true;
            }
            i = i + 1;
        }
        false
    }
}

/// Byte-for-byte equality of two byte strings.
fn bytes_eq(a: &[u8], b: &[u8]) -> (r: bool)
    ensures
        r == (a@ == b@),
{
    let n = a.len();
    if n != b.len() {
        return false;
    }
    let mut i: usize = 0;
    while i < n
        invariant
            0 <= i <= n,
            n == a@.len() == b@.len(),
            forall|k: int| 0 <= k < i ==> a@[k] == b@[k],
        decreases n - i,
    {
        if *vstd::slice::slice_index_get(a, i) != *vstd::slice::slice_index_get(b, i) {
            return false;
        }
        i = i + 1;
    }
    proof {
        assert(a@ =~= b@);
    }
    true
}

/// Decides whether a request may tunnel: the decision is exactly
/// [`decide_model`] of the request's method, its authority, and the
/// allowlist. Admission reads its inputs and decides; it changes nothing,
/// so the same request meets the same decision every time.
pub fn decide(req: &RequestHead, hosts: &AllowedHosts) -> (d: Decision)
    ensures
        d@ == decide_model(req.method, req.authority_view(), hosts@),
{
    match req.method {
        Method::Other => Decision::Rejected { reason: RejectReason::NotImplemented },
        Method::Connect => match &req.authority {
            None => Decision::Rejected { reason: RejectReason::MissingAuthority },
            Some(a) => match parse_host(a.as_slice()) {
                None => Decision::Rejected { reason: RejectReason::MissingAuthority },
                Some(h) => {
                    if hosts.contains_host(h.as_slice()) {
                        Decision::Accepted { target: clone_bytes(a) }
                    } else {
                        Decision::Rejected { reason: RejectReason::HostNotAllowed }
                    }
                },
            },
        },
    }
}

/// A copy of a byte string.
fn clone_bytes(a: &Vec<u8>) -> (r: Vec<u8>)
    ensures
        r@ == a@,
{
    vstd::slice::slice_to_vec(a.as_slice())
}

impl Decision {
    /// The HTTP status code that answers this decision.
    pub fn status_code(&self) -> (c: u16)
        ensures
            c == status_of(self@),
    {
        match self {
            Decision::Accepted { .. } => 200,
            Decision::Rejected { reason } => match reason {
                RejectReason::NotImplemented => 501,
                RejectReason::MissingAuthority => 400,
                RejectReason::HostNotAllowed => 400,
            },
        }
    }
}

/// The misconfigured entry that stopped the allowlist from being built: the
/// index of the first provider with no host.
#[derive(Debug, PartialEq, Eq)]
pub struct ConfigError {
    pub index: usize,
}

/// Builds the allowlist from the hosts of the configured providers, one host
/// per provider in order; a provider without a host is a fatal configuration
/// error naming the first such entry.
pub fn build_allowlist(providers: Vec<Option<Vec<u8>>>) -> (r: Result<AllowedHosts, ConfigError>)
    ensures
        match r {
            Ok(ah) => (forall|i: int|
                0 <= i < providers@.len() ==> providers@[i] is Some) && ah@ =~= providers@.map_values(
                |p: Option<Vec<u8>>| opt_bytes_view(p).unwrap(),
            ),
            Err(e) => e.index < providers@.len() && providers@[e.index as int] is None && (
            forall|i: int| 0 <= i < e.index ==> providers@[i] is Some),
        },
{
    let n = providers.len();
    let mut hosts: Vec<Vec<u8>> = Vec::new();
    let mut i: usize = 0;
    while i < n
        invariant
            0 <= i <= n,
            n == providers@.len(),
            hosts@.len() == i,
            forall|k: int| 0 <= k < i ==> providers@[k] is Some,
            forall|k: int| 0 <= k < i ==> hosts@[k]@ == opt_bytes_view(providers@[k]).unwrap(),
        decreases n - i,
    {
        match &providers[i] {
            Some(h) => {
                hosts.push(clone_bytes(h));
            },
            None => {
                return Err(ConfigError { index: i });
            },
        }
        i = i + 1;
    }
    let ah = AllowedHosts::new(hosts);
    proof {
        assert(ah@ =~= providers@.map_values(|p: Option<Vec<u8>>| opt_bytes_view(p).unwrap()));
    }
    Ok(ah)
}

} // verus!
