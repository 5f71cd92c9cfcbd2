use connect_proxy::admission::{
    build_allowlist, decide, AllowedHosts, Decision, Method, RejectReason, RequestHead,
};
use connect_proxy::authority::parse_host;
use connect_proxy::tunnel::TunnelPlan;

fn hosts(names: &[&str]) -> AllowedHosts {
    let v: Vec<Vec<u8>> = names.iter().map(|n| n.as_bytes().to_vec()).collect();
    AllowedHosts::new(v)
}

fn connect_to(authority: &str) -> RequestHead {
    RequestHead {
        method: Method::Connect,
        authority: Some(authority.as_bytes().to_vec()),
    }
}

#[test]
fn connect_to_allowed_host_is_accepted() {
    let ah = hosts(&["example.com"]);
    let d = decide(&connect_to("example.com:443"), &ah);
    assert_eq!(d.status_code(), 200);
    assert_eq!(
        d,
        Decision::Accepted {
            target: b"example.com:443".to_vec()
        }
    );
}

#[test]
fn accepted_target_is_the_authority_unchanged() {
    let ah = hosts(&["example.com"]);
    let d = decide(&connect_to("example.com:8443"), &ah);
    match d {
        Decision::Accepted { target } => assert_eq!(target, b"example.com:8443".to_vec()),
        Decision::Rejected { .. } => panic!("request should have been accepted"),
    }
}

#[test]
fn connect_to_disallowed_host_is_rejected() {
    let ah = hosts(&["example.com"]);
    let d = decide(&connect_to("evil.com:443"), &ah);
    assert_eq!(d.status_code(), 400);
    assert_eq!(
        d,
        Decision::Rejected {
            reason: RejectReason::HostNotAllowed
        }
    );
}

#[test]
fn non_connect_method_is_not_implemented() {
    let ah = hosts(&["example.com"]);
    let req = RequestHead {
        method: Method::Other,
        authority: Some(b"example.com:443".to_vec()),
    };
    let d = decide(&req, &ah);
    assert_eq!(d.status_code(), 501);
    assert_eq!(
        d,
        Decision::Rejected {
            reason: RejectReason::NotImplemented
        }
    );
}

#[test]
fn portless_authority_is_rejected() {
    let ah = hosts(&["example.com"]);
    let d = decide(&connect_to("example.com"), &ah);
    assert_eq!(d.status_code(), 400);
    assert_eq!(
        d,
        Decision::Rejected {
            reason: RejectReason::MissingAuthority
        }
    );
}

#[test]
fn absent_authority_is_rejected() {
    let ah = hosts(&["example.com"]);
    let req = RequestHead {
        method: Method::Connect,
        authority: None,
    };
    let d = decide(&req, &ah);
    assert_eq!(d.status_code(), 400);
    assert_eq!(
        d,
        Decision::Rejected {
            reason: RejectReason::MissingAuthority
        }
    );
}

#[test]
fn host_match_is_case_sensitive() {
    let ah = hosts(&["example.com"]);
    let d = decide(&connect_to("Example.com:443"), &ah);
    assert_eq!(d.status_code(), 400);
    assert_eq!(
        d,
        Decision::Rejected {
            reason: RejectReason::HostNotAllowed
        }
    );
}

#[test]
fn repeated_rejection_is_identical() {
    let ah = hosts(&["example.com"]);
    let first = decide(&connect_to("evil.com:443"), &ah);
    for _ in 0..5 {
        let again = decide(&connect_to("evil.com:443"), &ah);
        assert_eq!(again, first);
        assert_eq!(again.status_code(), 400);
    }
}

#[test]
fn rejected_request_yields_no_plan() {
    let ah = hosts(&["example.com"]);
    let d = decide(&connect_to("evil.com:443"), &ah);
    assert!(TunnelPlan::from_decision(d).is_none());
    let d = decide(
        &RequestHead {
            method: Method::Other,
            authority: None,
        },
        &ah,
    );
    assert!(TunnelPlan::from_decision(d).is_none());
}

#[test]
fn accepted_request_plans_the_dial() {
    let ah = hosts(&["example.com"]);
    let d = decide(&connect_to("example.com:443"), &ah);
    let plan = TunnelPlan::from_decision(d).expect("accepted request must yield a plan");
    assert_eq!(plan.target, b"example.com:443".to_vec());
}

#[test]
fn parse_host_splits_host_and_port() {
    assert_eq!(
        parse_host(b"example.com:443"),
        Some(b"example.com".to_vec())
    );
    assert_eq!(parse_host(b"10.0.0.1:8080"), Some(b"10.0.0.1".to_vec()));
}

#[test]
fn parse_host_reads_bracketed_ipv6() {
    assert_eq!(parse_host(b"[::1]:443"), Some(b"::1".to_vec()));
    assert_eq!(
        parse_host(b"[2001:db8::2]:8443"),
        Some(b"2001:db8::2".to_vec())
    );
}

#[test]
fn parse_host_rejects_malformed_authorities() {
    assert_eq!(parse_host(b""), None);
    assert_eq!(parse_host(b"example.com"), None);
    assert_eq!(parse_host(b":443"), None);
    assert_eq!(parse_host(b"example.com:"), None);
    assert_eq!(parse_host(b"example.com:http"), None);
    assert_eq!(parse_host(b"[::1]"), None);
    assert_eq!(parse_host(b"[::1]:"), None);
    assert_eq!(parse_host(b"[]:443"), None);
    assert_eq!(parse_host(b"[::1"), None);
}

#[test]
fn allowlist_membership_is_exact() {
    let ah = hosts(&["example.com", "other.net"]);
    assert!(ah.contains_host(b"example.com"));
    assert!(ah.contains_host(b"other.net"));
    assert!(!ah.contains_host(b"example.co"));
    assert!(!ah.contains_host(b"example.com."));
    assert!(!ah.contains_host(b""));
}

#[test]
fn allowlist_builds_from_provider_hosts() {
    let providers = vec![
        Some(b"example.com".to_vec()),
        Some(b"other.net".to_vec()),
    ];
    let ah = build_allowlist(providers).expect("all providers have hosts");
    assert!(ah.contains_host(b"example.com"));
    assert!(ah.contains_host(b"other.net"));
    assert!(!ah.contains_host(b"evil.com"));
}

#[test]
fn hostless_provider_aborts_startup() {
    let providers = vec![Some(b"example.com".to_vec()), None, Some(b"a.b".to_vec())];
    let err = match build_allowlist(providers) {
        Ok(_) => panic!("a provider without a host must be a configuration error"),
        Err(e) => e,
    };
    assert_eq!(err.index, 1);
}
