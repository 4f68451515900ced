//! IP addresses and the authority part of a URI.

use crate::text::decimal_text;
use vstd::prelude::*;

verus! {

/// An IP address of either family.
///
/// It holds the text in which the standard library prints the address, which is
/// the same for two addresses exactly where they are equal.
#[derive(Debug)]
pub enum IpAddr {
    V4(String),
    V6(String),
}

impl IpAddr {
    /// The address as text, without brackets.
    pub open spec fn text(self) -> Seq<char> {
        match self {
            IpAddr::V4(text) => text@,
            IpAddr::V6(text) => text@,
        }
    }

    /// The two are the same address.
    pub open spec fn same(self, other: IpAddr) -> bool {
        (self is V4) == (other is V4) && self.text() == other.text()
    }

    /// The address as text, without brackets.
    pub fn as_text(&self) -> (r: &str)
        ensures
            r@ == self.text(),
    {
        match self {
            IpAddr::V4(text) => text.as_str(),
            IpAddr::V6(text) => text.as_str(),
        }
    }
}

impl Clone for IpAddr {
    fn clone(&self) -> (r: Self)
        ensures
            r == *self,
    {
        match self {
            IpAddr::V4(text) => IpAddr::V4(text.clone()),
            IpAddr::V6(text) => IpAddr::V6(text.clone()),
        }
    }
}

impl PartialEq for IpAddr {
    fn eq(&self, other: &Self) -> (r: bool) {
        match (self, other) {
            (IpAddr::V4(a), IpAddr::V4(b)) => *a == *b,
            (IpAddr::V6(a), IpAddr::V6(b)) => *a == *b,
            _ => false,
        }
    }
}

impl vstd::std_specs::cmp::PartialEqSpecImpl for IpAddr {
    open spec fn obeys_eq_spec() -> bool {
        true
    }

    open spec fn eq_spec(&self, other: &Self) -> bool {
        self.same(*other)
    }
}

/// The authority that names a port at an address: `address:port`, with the
/// address in square brackets where it is an IPv6 address.
pub open spec fn authority(addr: IpAddr, port: u16) -> Seq<char> {
    match addr {
        IpAddr::V4(text) => text@ + seq![':'] + crate::text::decimal(port as nat),
        IpAddr::V6(text) => seq!['['] + text@ + seq![']', ':'] + crate::text::decimal(port as nat),
    }
}

/// The authority that names `port` at `addr`.
pub fn socket_authority(addr: &IpAddr, port: u16) -> (r: String)
    ensures
        r@ == authority(*addr, port),
{
    let digits: String = decimal_text(port);
    proof {
        reveal_strlit(":");
        reveal_strlit("[");
        reveal_strlit("]:");
    }
    match addr {
        IpAddr::V4(text) => {
            let mut r: String = text.clone();
            r.append(":");
            r.append(digits.as_str());
            assert(r@ =~= authority(*addr, port));
            r
        },
        IpAddr::V6(text) => {
            let mut r: String = "[".to_owned();
            r.append(text.as_str());
            r.append("]:");
            r.append(digits.as_str());
            assert(r@ =~= authority(*addr, port));
            r
        },
    }
}

} // verus!
