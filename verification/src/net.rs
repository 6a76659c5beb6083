//! IPv4 addresses and the access gate: exact-match comparison of a caller's
//! address against a configured allow-list, and the loopback check used by
//! the point read/write endpoints.

use vstd::prelude::*;

verus! {

/// An IPv4 address as four octets.
#[derive(Clone, Copy, PartialEq, Eq, Structural, Debug, Hash)]
pub struct Ipv4 {
    pub a: u8,
    pub b: u8,
    pub c: u8,
    pub d: u8,
}

impl Ipv4 {
    /// Builds an address from its four octets, most significant first.
    pub fn new(a: u8, b: u8, c: u8, d: u8) -> (r: Ipv4)
        ensures
            r == (Ipv4 { a, b, c, d }),
    {
        Ipv4 { a, b, c, d }
    }

    /// Whether this is the loopback address 127.0.0.1.
    pub open spec fn spec_is_loopback(self) -> bool {
        self == (Ipv4 { a: 127, b: 0, c: 0, d: 1 })
    }

    /// The loopback check guarding the point read/write endpoints.
    pub fn is_loopback(self) -> (r: bool)
        ensures
            r == self.spec_is_loopback(),
    {
        self.a == 127 && self.b == 0 && self.c == 0 && self.d == 1
    }
}

/// The access gate: exact-match membership of the caller's address in the
/// configured allow-list. No CIDR semantics. Pure; touches no store.
pub fn is_allowed(caller_ip: Ipv4, allowed_ips: &Vec<Ipv4>) -> (r: bool)
    ensures
        r == allowed_ips@.contains(caller_ip),
{
    let mut i: usize = 0;
    while i < allowed_ips.len()
        invariant
            i <= allowed_ips@.len(),
            forall|k: int| 0 <= k < i ==> allowed_ips@[k] != caller_ip,
        decreases allowed_ips@.len() - i,
    {
        if allowed_ips[i] == caller_ip {
            return true;
        }
        i = i + 1;
    }
    false
}

} // verus!
