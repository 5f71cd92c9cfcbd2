//! Parsing of a CONNECT target authority.
//!
//! An authority names the destination of a tunnel. The grammar accepted here
//! is `host ":" port` for ordinary hostnames and IPv4 literals, and
//! `"[" host "]" ":" port` for bracketed IPv6 literals. The port is required:
//! an authority without one cannot be dialed and is treated as unparseable,
//! so admission rejects it rather than letting the dial fail later. The host
//! of a bracketed authority is the text between the brackets.

use vstd::prelude::*;

verus! {

/// The byte `:`.
pub const COLON: u8 = 58;

/// The byte `[`.
pub const LBRACK: u8 = 91;

/// The byte `]`.
pub const RBRACK: u8 = 93;

/// True of the ASCII digits `0` through `9`.
pub open spec fn is_digit(b: u8) -> bool {
    48 <= b <= 57
}

/// True when every byte of `s` is an ASCII digit.
pub open spec fn all_digits(s: Seq<u8>) -> bool {
    forall|i: int| 0 <= i < s.len() ==> is_digit(s[i])
}

/// The position of the first occurrence of `b` in `a`, if any.
pub open spec fn first_pos(a: Seq<u8>, b: u8) -> Option<int>
    decreases a.len(),
{
    if a.len() == 0 {
        None
    } else if a[0] == b {
        Some(0int)
    } else {
        match first_pos(a.drop_first(), b) {
            Some(j) => Some(j + 1),
            None => None,
        }
    }
}

/// The host component of an authority, when the authority is well formed:
/// a nonempty host, then a colon, then a nonempty all-digit port; an IPv6
/// host stands in brackets and the host is the text between them.
pub open spec fn parsed_host(a: Seq<u8>) -> Option<Seq<u8>> {
    if a.len() > 0 && a[0] == LBRACK {
        match first_pos(a, RBRACK) {
            Some(j) => {
                let host = a.subrange(1, j);
                let rest = a.subrange(j + 1, a.len() as int);
                if host.len() > 0 && rest.len() >= 2 && rest[0] == COLON && all_digits(
                    rest.subrange(1, rest.len() as int),
                ) {
                    Some(host)
                } else {
                    None
                }
            },
            None => None,
        }
    } else {
        match first_pos(a, COLON) {
            Some(j) => {
                let host = a.subrange(0, j);
                let port = a.subrange(j + 1, a.len() as int);
                if host.len() > 0 && port.len() > 0 && all_digits(port) {
                    Some(host)
                } else {
                    None
                }
            },
            None => None,
        }
    }
}

/// The view of an optional byte vector as an optional byte sequence.
pub open spec fn opt_bytes_view(o: Option<Vec<u8>>) -> Option<Seq<u8>> {
    match o {
        Some(v) => Some(v@),
        None => None,
    }
}

/// A forward scan that saw no `b` before `j`, and `b` at `j` unless `j` is
/// the length, determines `first_pos`.
proof fn lemma_first_pos_at(a: Seq<u8>, b: u8, j: int)
    requires
        0 <= j <= a.len(),
        forall|i: int| 0 <= i < j ==> a[i] != b,
        j < a.len() ==> a[j] == b,
    ensures
        j < a.len() ==> first_pos(a, b) == Some(j),
        j == a.len() ==> first_pos(a, b) is None,
    decreases j,
{
    if j == 0 {
    } else {
        let t = a.drop_first();
        assert(forall|i: int| 0 <= i < j - 1 ==> t[i] == a[i + 1] && a[i + 1] != b);
        lemma_first_pos_at(t, b, j - 1);
    }
}

/// Everything `first_pos` finds is an occurrence, and the first one.
pub proof fn lemma_first_pos_spec(a: Seq<u8>, b: u8)
    ensures
        match first_pos(a, b) {
            Some(j) => 0 <= j < a.len() && a[j] == b && (forall|i: int| 0 <= i < j ==> a[i] != b),
            None => forall|i: int| 0 <= i < a.len() ==> a[i] != b,
        },
    decreases a.len(),
{
    if a.len() > 0 && a[0] != b {
        let t = a.drop_first();
        lemma_first_pos_spec(t, b);
        assert(forall|i: int| 1 <= i < a.len() ==> a[i] == t[i - 1]);
    }
}

/// The index of the first occurrence of `b` in `a`, or `None` when `b` does
/// not occur.
fn find_byte(a: &[u8], b: u8) -> (r: Option<usize>)
    ensures
        match r {
            Some(j) => first_pos(a@, b) == Some(j as int),
            None => first_pos(a@, b) is None,
        },
{
    let n = a.len();
    let mut i: usize = 0;
    while i < n
        invariant
            0 <= i <= n,
            n == a@.len(),
            forall|k: int| 0 <= k < i ==> a@[k] != b,
        decreases n - i,
    {
        if *vstd::slice::slice_index_get(a, i) == b {
            proof {
                lemma_first_pos_at(a@, b, i as int);
            }
            return Some(i);
        }
        i = i + 1;
    }
    proof {
        lemma_first_pos_at(a@, b, n as int);
    }
    None
}

/// True when every byte of `a` is an ASCII digit.
fn check_all_digits(a: &[u8]) -> (r: bool)
    ensures
        r == all_digits(a@),
{
    let n = a.len();
    let mut i: usize = 0;
    while i < n
        invariant
            0 <= i <= n,
            n == a@.len(),
            forall|k: int| 0 <= k < i ==> is_digit(a@[k]),
        decreases n - i,
    {
        let c = *vstd::slice::slice_index_get(a, i);
        if c < 48 || c > 57 {
            return false;
        }
        i = i + 1;
    }
    true
}

/// Extracts the host from an authority, or `None` when the authority does
/// not fit the accepted grammar.
pub fn parse_host(a: &[u8]) -> (r: Option<Vec<u8>>)
    ensures
        opt_bytes_view(r) == parsed_host(a@),
{
    let n = a.len();
    if n == 0 {
        return None;
    }
    if *vstd::slice::slice_index_get(a, 0) == LBRACK {
        match find_byte(a, RBRACK) {
            Some(j) => {
                proof {
                    lemma_first_pos_spec(a@, RBRACK);
                }
                // host = a[1..j], rest = a[j+1..]; need a nonempty host,
                // a colon right after the bracket, and a nonempty digit port.
                if j >= 2 && n >= 3 && j <= n - 3 && *vstd::slice::slice_index_get(a, j + 1)
                    == COLON {
                    proof {
                        let rest = a@.subrange(j + 1, n as int);
                        assert(rest.subrange(1, rest.len() as int) =~= a@.subrange(
                            j + 2,
                            n as int,
                        ));
                    }
                    let port = vstd::slice::slice_subrange(a, j + 2, n);
                    if check_all_digits(port) {
                        let host = vstd::slice::slice_subrange(a, 1, j);
                        Some(vstd::slice::slice_to_vec(host))
                    } else {
                        None
                    }
                } else {
                    None
                }
            },
            None => None,
        }
    } else {
        match find_byte(a, COLON) {
            Some(j) => {
                proof {
                    lemma_first_pos_spec(a@, COLON);
                }
                if j >= 1 && n >= 2 && j <= n - 2 {
                    let port = vstd::slice::slice_subrange(a, j + 1, n);
                    if check_all_digits(port) {
                        let host = vstd::slice::slice_subrange(a, 0, j);
                        return Some(vstd::slice::slice_to_vec(host));
                    }
                }
                None
            },
            None => None,
        }
    }
}

} // verus!
