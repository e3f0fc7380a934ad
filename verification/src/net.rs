//! Network addresses as plain values.

use vstd::prelude::*;
use vstd::string::*;
use crate::text::{decimal_text, render_decimal};

verus! {

/// An IPv4 address, by its four octets in network order.
#[derive(Clone, Copy, Debug, PartialEq, Eq, Structural)]
pub struct Ipv4 {
    pub a: u8,
    pub b: u8,
    pub c: u8,
    pub d: u8,
}

/// An IPv6 address, by its 128 bits in network order.
#[derive(Clone, Copy, Debug, PartialEq, Eq, Structural)]
pub struct Ipv6 {
    pub bits: u128,
}

/// An address of either family.
#[derive(Clone, Copy, Debug, PartialEq, Eq, Structural)]
pub enum IpAddress {
    V4(Ipv4),
    V6(Ipv6),
}

/// The dotted-decimal text of an IPv4 address.
pub open spec fn dotted_text(ip: Ipv4) -> Seq<char> {
    decimal_text(ip.a as nat) + "."@ + decimal_text(ip.b as nat) + "."@ + decimal_text(
        ip.c as nat,
    ) + "."@ + decimal_text(ip.d as nat)
}

impl Ipv4 {
    /// The address with the given octets.
    pub fn new(a: u8, b: u8, c: u8, d: u8) -> (ip: Ipv4)
        ensures
            ip == (Ipv4 { a, b, c, d }),
    {
        Ipv4 { a, b, c, d }
    }

    /// Renders the address in dotted decimal.
    pub fn render(&self) -> (s: String)
        ensures
            s@ == dotted_text(*self),
    {
        let s: String = render_decimal(self.a as u64);
        let s: String = s.concat(".");
        let s: String = s.concat(render_decimal(self.b as u64).as_str());
        let s: String = s.concat(".");
        let s: String = s.concat(render_decimal(self.c as u64).as_str());
        let s: String = s.concat(".");
        s.concat(render_decimal(self.d as u64).as_str())
    }
}

} // verus!
