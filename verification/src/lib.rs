//! A verified core for a CONNECT forward proxy.
//!
//! The library holds the proxy's decision logic: parsing a CONNECT target
//! authority, admitting or rejecting a request against an allowlist of
//! destination hosts, accounting for the bytes a tunnel relays in each
//! direction, and sequencing the lifecycle of one tunnel. All I/O — the HTTP
//! server, the outbound TCP dial, and the byte copying itself — lives outside
//! the library and is driven by the decisions made here.

pub mod admission;
pub mod authority;
pub mod relay;
pub mod tunnel;

use vstd::prelude::*;

use crate::admission::{decide_model, status_of, DecisionModel, Method, RejectReason};
use crate::authority::parsed_host;
use crate::tunnel::plan_model;

verus! {

/// Law: a request whose method is not CONNECT is rejected as not
/// implemented, answered with status 501, and yields no dial target — no
/// outbound connection is attempted for it, whatever its authority and
/// whatever the allowlist.
pub proof fn lemma_non_connect_rejected(authority: Option<Seq<u8>>, hosts: Seq<Seq<u8>>)
    ensures
        decide_model(Method::Other, authority, hosts) == (DecisionModel::Reject {
            reason: RejectReason::NotImplemented,
        }),
        status_of(decide_model(Method::Other, authority, hosts)) == 501,
        plan_model(decide_model(Method::Other, authority, hosts)) is None,
{
}

/// Law: a CONNECT request whose target carries no authority, or an
/// authority that does not parse into a host, is rejected for its missing
/// authority, answered with status 400, and yields no dial target — no
/// outbound connection is attempted for it.
pub proof fn lemma_missing_authority_rejected(authority: Option<Seq<u8>>, hosts: Seq<Seq<u8>>)
    requires
        authority is None || parsed_host(authority.unwrap()) is None,
    ensures
        decide_model(Method::Connect, authority, hosts) == (DecisionModel::Reject {
            reason: RejectReason::MissingAuthority,
        }),
        status_of(decide_model(Method::Connect, authority, hosts)) == 400,
        plan_model(decide_model(Method::Connect, authority, hosts)) is None,
{
}

/// Law: a CONNECT request whose host is not on the allowlist is rejected,
/// answered with status 400, and yields no dial target — no outbound
/// connection is attempted for it.
pub proof fn lemma_disallowed_host_rejected(a: Seq<u8>, hosts: Seq<Seq<u8>>)
    requires
        parsed_host(a) is Some,
        !hosts.contains(parsed_host(a).unwrap()),
    ensures
        decide_model(Method::Connect, Some(a), hosts) == (DecisionModel::Reject {
            reason: RejectReason::HostNotAllowed,
        }),
        status_of(decide_model(Method::Connect, Some(a), hosts)) == 400,
        plan_model(decide_model(Method::Connect, Some(a), hosts)) is None,
{
}

/// Law: a CONNECT request whose host is on the allowlist is accepted,
/// answered with status 200, and its dial target is the authority exactly
/// as the request carried it.
pub proof fn lemma_allowed_host_accepted(a: Seq<u8>, hosts: Seq<Seq<u8>>)
    requires
        parsed_host(a) is Some,
        hosts.contains(parsed_host(a).unwrap()),
    ensures
        decide_model(Method::Connect, Some(a), hosts) == (DecisionModel::Accept { target: a }),
        status_of(decide_model(Method::Connect, Some(a), hosts)) == 200,
        plan_model(decide_model(Method::Connect, Some(a), hosts)) == Some(a),
{
}

/// Law: admission is a pure function of the request and the allowlist —
/// any two decisions on the same method, authority and allowlist are the
/// same decision, so repeating a rejected request any number of times
/// yields the same rejection every time, and nothing else.
pub proof fn lemma_admission_repeatable(
    m: Method,
    authority: Option<Seq<u8>>,
    hosts: Seq<Seq<u8>>,
    d1: DecisionModel,
    d2: DecisionModel,
)
    requires
        d1 == decide_model(m, authority, hosts),
        d2 == decide_model(m, authority, hosts),
    ensures
        d1 == d2,
{
}

} // verus!
