//! Fixed-width address value types: a 4-byte IPv4 address and a 6-byte
//! hardware (MAC) address, each with byte-array conversion that round
//! trips exactly and a canonical textual form.

use vstd::prelude::*;
use crate::text::dec_rep;
use crate::text::fmt_hex_byte;
use crate::text::fmt_u32;
use crate::text::hex_byte_rep;

verus! {

/// Length in bytes of an IPv4 address.
pub const IPV4_LEN: usize = 4;

/// Length in bytes of a hardware address.
pub const MAC_LEN: usize = 6;

/// A 4-byte IPv4 address, kept in network (big-endian) byte order.
/// Immutable once constructed.
#[derive(Clone, Copy, Debug)]
pub struct Ipv4 {
    pub octets: [u8; 4],
}

/// A 6-byte hardware address.  Immutable once constructed.
#[derive(Clone, Copy, Debug)]
pub struct Mac {
    pub octets: [u8; 6],
}

/// Dotted-decimal text of four address bytes.
pub open spec fn ipv4_rep(b: Seq<u8>) -> Seq<char>
    recommends
        b.len() == 4,
{
    dec_rep(b[0] as nat) + seq!['.'] + dec_rep(b[1] as nat) + seq!['.'] + dec_rep(b[2] as nat)
        + seq!['.'] + dec_rep(b[3] as nat)
}

/// Colon-separated two-digit lower-case hex text of six address bytes.
pub open spec fn mac_rep(b: Seq<u8>) -> Seq<char>
    recommends
        b.len() == 6,
{
    hex_byte_rep(b[0]) + seq![':'] + hex_byte_rep(b[1]) + seq![':'] + hex_byte_rep(b[2])
        + seq![':'] + hex_byte_rep(b[3]) + seq![':'] + hex_byte_rep(b[4]) + seq![':']
        + hex_byte_rep(b[5])
}

impl Ipv4 {
    /// Constructs an address holding exactly the given bytes.  Total:
    /// every 4-byte input is a valid address.
    pub fn from_bytes(bytes: [u8; 4]) -> (r: Self)
        ensures
            r.octets == bytes,
    {
        Ipv4 { octets: bytes }
    }

    /// The address bytes, exactly as constructed.
    pub fn to_bytes(&self) -> (r: [u8; 4])
        ensures
            r == self.octets,
    {
        self.octets
    }

    /// The dotted-decimal form, e.g. four bytes `192 168 1 1` print as
    /// `192.168.1.1`.
    pub fn to_dotted_decimal(&self) -> (s: String)
        ensures
            s@ == ipv4_rep(self.octets@),
    {
        let mut s = fmt_u32(self.octets[0] as u32);
        s.append(".");
        s.append(fmt_u32(self.octets[1] as u32).as_str());
        s.append(".");
        s.append(fmt_u32(self.octets[2] as u32).as_str());
        s.append(".");
        s.append(fmt_u32(self.octets[3] as u32).as_str());
        proof {
            reveal_strlit(".");
            assert(s@ =~= ipv4_rep(self.octets@));
        }
        s
    }
}

impl Mac {
    /// Constructs an address holding exactly the given bytes.  Total:
    /// every 6-byte input is a valid address.
    pub fn from_bytes(bytes: [u8; 6]) -> (r: Self)
        ensures
            r.octets == bytes,
    {
        Mac { octets: bytes }
    }

    /// The address bytes, exactly as constructed.
    pub fn to_bytes(&self) -> (r: [u8; 6])
        ensures
            r == self.octets,
    {
        self.octets
    }

    /// The colon-hex form, e.g. six bytes `0 0 0 0 0 1` print as
    /// `00:00:00:00:00:01`.
    pub fn to_colon_hex(&self) -> (s: String)
        ensures
            s@ == mac_rep(self.octets@),
    {
        let mut s = fmt_hex_byte(self.octets[0]);
        s.append(":");
        s.append(fmt_hex_byte(self.octets[1]).as_str());
        s.append(":");
        s.append(fmt_hex_byte(self.octets[2]).as_str());
        s.append(":");
        s.append(fmt_hex_byte(self.octets[3]).as_str());
        s.append(":");
        s.append(fmt_hex_byte(self.octets[4]).as_str());
        s.append(":");
        s.append(fmt_hex_byte(self.octets[5]).as_str());
        proof {
            reveal_strlit(":");
            assert(s@ =~= mac_rep(self.octets@));
        }
        s
    }
}

/// Round-trip law for IPv4 values: constructing an address from bytes
/// and converting it back yields the original bytes.  The two steps
/// are exactly the contracts of `Ipv4::from_bytes` (the stored octets
/// are the input bytes) and `Ipv4::to_bytes` (the result is the stored
/// octets).
pub proof fn lemma_ipv4_round_trip(bytes: [u8; 4], constructed: Ipv4, back: [u8; 4])
    requires
        constructed.octets == bytes,
        back == constructed.octets,
    ensures
        back == bytes,
{
}

/// Round-trip law for hardware addresses: constructing a value from
/// bytes and converting it back yields the original bytes, by the
/// contracts of `Mac::from_bytes` and `Mac::to_bytes`.
pub proof fn lemma_mac_round_trip(bytes: [u8; 6], constructed: Mac, back: [u8; 6])
    requires
        constructed.octets == bytes,
        back == constructed.octets,
    ensures
        back == bytes,
{
}

} // verus!
