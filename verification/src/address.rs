//! IPv4 addresses as plain octets, and the multicast range.

use vstd::prelude::*;
use vstd::string::StringExecFns;
use crate::text::{append_decimal, decimal};

verus! {

/// The lowest address of the multicast range, `224.0.0.0`, as a number.
pub const MULTICAST_FIRST: u32 = 0xE000_0000;

/// The highest address of the multicast range, `239.255.255.255`, as a number.
pub const MULTICAST_LAST: u32 = 0xEFFF_FFFF;

/// An IPv4 address, written `a.b.c.d`.
#[derive(Clone, Copy, Debug, PartialEq, Eq, Structural)]
pub struct Ipv4Address {
    pub a: u8,
    pub b: u8,
    pub c: u8,
    pub d: u8,
}

/// An IPv4 address together with a UDP port, written `a.b.c.d:port`.
#[derive(Clone, Copy, Debug, PartialEq, Eq, Structural)]
pub struct SocketAddress {
    pub ip: Ipv4Address,
    pub port: u16,
}

impl Ipv4Address {
    /// The address as the 32-bit number that its octets spell, most
    /// significant first.
    pub open spec fn value(self) -> int {
        self.a * 0x100_0000 + self.b * 0x1_0000 + self.c * 0x100 + self.d
    }

    /// Whether the address lies in the range reserved for multicast groups.
    pub open spec fn in_multicast_range(self) -> bool {
        MULTICAST_FIRST <= self.value() <= MULTICAST_LAST
    }

    /// The dotted-decimal text of the address.
    pub open spec fn dotted(self) -> Seq<char> {
        decimal(self.a as nat) + seq!['.'] + decimal(self.b as nat) + seq!['.'] + decimal(
            self.c as nat,
        ) + seq!['.'] + decimal(self.d as nat)
    }

    /// The address `a.b.c.d`.
    pub fn new(a: u8, b: u8, c: u8, d: u8) -> (address: Ipv4Address)
        ensures
            address == (Ipv4Address { a, b, c, d }),
    {
        Ipv4Address { a, b, c, d }
    }

    /// The four octets, most significant first.
    pub fn octets(&self) -> (octets: [u8; 4])
        ensures
            octets@ == seq![self.a, self.b, self.c, self.d],
    {
        let octets: [u8; 4] = [self.a, self.b, self.c, self.d];
        octets
    }

    /// Whether this is the address of a multicast group.
    pub fn is_multicast(&self) -> (multicast: bool)
        ensures
            multicast == self.in_multicast_range(),
    {
        self.a >= 224 && self.a <= 239
    }

    /// Appends the dotted-decimal text of the address to `out`.
    pub fn append_to(&self, out: &mut String)
        ensures
            final(out)@ == old(out)@ + self.dotted(),
    {
        proof {
            reveal_strlit(".");
        }
        append_decimal(out, self.a as u128);
        out.append(".");
        append_decimal(out, self.b as u128);
        out.append(".");
        append_decimal(out, self.c as u128);
        out.append(".");
        append_decimal(out, self.d as u128);
    }
}

impl SocketAddress {
    /// The text `a.b.c.d:port`.
    pub open spec fn text(self) -> Seq<char> {
        self.ip.dotted() + seq![':'] + decimal(self.port as nat)
    }

    /// Appends the text `a.b.c.d:port` to `out`.
    pub fn append_to(&self, out: &mut String)
        ensures
            final(out)@ == old(out)@ + self.text(),
    {
        proof {
            reveal_strlit(":");
        }
        self.ip.append_to(out);
        out.append(":");
        append_decimal(out, self.port as u128);
    }
}

/// The multicast range is exactly the addresses whose first octet lies
/// between 224 and 239: the four leading bits `1110`.
pub proof fn lemma_multicast_first_octet(address: Ipv4Address)
    ensures
        address.in_multicast_range() <==> 224 <= address.a <= 239,
        address.in_multicast_range() <==> address.a & 0xF0 == 0xE0,
{
    let a: u8 = address.a;
    assert((224 <= a <= 239) <==> (a & 0xF0 == 0xE0)) by (bit_vector);
}

} // verus!
