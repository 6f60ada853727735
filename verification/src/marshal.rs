//! Fixed-size byte-buffer marshaling for the OS-defined layouts the
//! channel touches: the link-layer destination descriptor used when
//! sending, the interface-name field of an interface request, and the
//! address fields read back from interface queries.  Field offsets are
//! documented at each function; the rest of the library never touches
//! a raw layout directly.

use vstd::prelude::*;
use crate::addr::Ipv4;
use crate::addr::Mac;

verus! {

/// Total size of the link-layer destination descriptor (`sockaddr_ll`).
pub const SOCKADDR_LL_LEN: usize = 20;

/// Size of the interface-name field of an interface request (`ifreq`).
pub const IFR_NAME_LEN: usize = 16;

/// The unsigned 32-bit two's-complement value of a signed 32-bit value.
pub open spec fn u32_of_i32(n: i32) -> nat {
    if n >= 0 {
        n as nat
    } else {
        (n + 0x1_0000_0000) as nat
    }
}

/// The four little-endian bytes of a 32-bit value.
pub open spec fn le32(v: nat) -> Seq<u8> {
    seq![
        (v % 256) as u8,
        ((v / 256) % 256) as u8,
        ((v / 65536) % 256) as u8,
        ((v / 16777216) % 256) as u8,
    ]
}

/// The 20 bytes of a link-layer destination descriptor addressed to an
/// interface: family and protocol zero (bytes 0..4), the interface
/// index in little-endian byte order (bytes 4..8), hardware type and
/// packet type zero (bytes 8..11), the hardware-address length 6
/// (byte 11), the 6 hardware-address bytes (bytes 12..18), and two
/// bytes of padding up to the fixed 8-byte address field (bytes 18..20).
/// The OS reads the index field in the machine's own byte order; the
/// little-endian order stated here is that order on every platform the
/// descriptor-based back-end targets.
pub open spec fn sockaddr_ll_rep(ifindex: i32, mac: Seq<u8>) -> Seq<u8>
    recommends
        mac.len() == 6,
{
    seq![0u8, 0u8, 0u8, 0u8] + le32(u32_of_i32(ifindex)) + seq![0u8, 0u8, 0u8, 6u8] + mac
        + seq![0u8, 0u8]
}

/// Builds the link-layer destination descriptor for a send on the
/// interface with the given index, embedding the channel's own
/// hardware address.
pub fn encode_sockaddr_ll(ifindex: i32, mac: &Mac) -> (r: Vec<u8>)
    ensures
        r@ == sockaddr_ll_rep(ifindex, mac.octets@),
        r@.len() == SOCKADDR_LL_LEN,
{
    let v: u32 = if ifindex >= 0 {
        ifindex as u32
    } else {
        ((ifindex as i64) + 0x1_0000_0000i64) as u32
    };
    proof {
        assert(v as nat == u32_of_i32(ifindex));
    }
    let mut r: Vec<u8> = Vec::new();
    r.push(0);
    r.push(0);
    r.push(0);
    r.push(0);
    r.push((v % 256) as u8);
    r.push(((v / 256) % 256) as u8);
    r.push(((v / 65536) % 256) as u8);
    r.push(((v / 16777216) % 256) as u8);
    r.push(0);
    r.push(0);
    r.push(0);
    r.push(6);
    r.push(mac.octets[0]);
    r.push(mac.octets[1]);
    r.push(mac.octets[2]);
    r.push(mac.octets[3]);
    r.push(mac.octets[4]);
    r.push(mac.octets[5]);
    r.push(0);
    r.push(0);
    proof {
        assert(r@ =~= sockaddr_ll_rep(ifindex, mac.octets@));
    }
    r
}

/// Fills the 16-byte interface-name field of an interface request:
/// the NUL-terminated name bytes, zero-padded to the field size.
/// Yields nothing if and only if the name bytes do not fit the field.
pub fn encode_ifr_name(c_name: &Vec<u8>) -> (r: Option<Vec<u8>>)
    ensures
        (c_name@.len() <= IFR_NAME_LEN) <==> (r is Some),
        r matches Some(v) ==> v@ == c_name@ + Seq::new((IFR_NAME_LEN - c_name@.len()) as nat, |i: int| 0u8),
{
    if c_name.len() > IFR_NAME_LEN {
        return None;
    }
    let mut v: Vec<u8> = Vec::new();
    let mut i: usize = 0;
    while i < c_name.len()
        invariant
            i <= c_name@.len(),
            v@ == c_name@.subrange(0, i as int),
        decreases c_name@.len() - i,
    {
        v.push(c_name[i]);
        i += 1;
    }
    proof {
        assert(v@ =~= c_name@);
    }
    while v.len() < IFR_NAME_LEN
        invariant
            c_name@.len() <= v@.len() <= IFR_NAME_LEN,
            v@.subrange(0, c_name@.len() as int) == c_name@,
            forall|j: int| c_name@.len() <= j < v@.len() ==> v@[j] == 0u8,
        decreases IFR_NAME_LEN - v@.len(),
    {
        v.push(0);
    }
    proof {
        assert(v@ =~= c_name@ + Seq::new((IFR_NAME_LEN - c_name@.len()) as nat, |i: int| 0u8));
    }
    Some(v)
}

/// Reads the interface index the OS wrote into an interface request:
/// the 4-byte index field sits at offset 16, right after the name
/// field, in little-endian byte order (the machine's own order on
/// every platform the descriptor-based back-end targets).  The result
/// is the signed value whose two's-complement bytes stand there, so
/// re-encoding it with `le32` under `u32_of_i32` reproduces those
/// bytes exactly.  Yields nothing if and only if the buffer is too
/// short to hold the field.
pub fn ifindex_from_ifreq(ifr: &Vec<u8>) -> (r: Option<i32>)
    ensures
        (ifr@.len() >= 20) <==> (r is Some),
        r matches Some(i) ==> le32(u32_of_i32(i)) == ifr@.subrange(16, 20),
{
    if ifr.len() < 20 {
        return None;
    }
    let b0: u32 = ifr[16] as u32;
    let b1: u32 = ifr[17] as u32;
    let b2: u32 = ifr[18] as u32;
    let b3: u32 = ifr[19] as u32;
    let v: u32 = b0 + b1 * 256 + b2 * 65536 + b3 * 16777216;
    let index: i32 = if v <= 2147483647 {
        v as i32
    } else {
        ((v as i64) - 0x1_0000_0000i64) as i32
    };
    proof {
        assert(u32_of_i32(index) == v as nat);
        assert(v % 256 == b0 && (v / 256) % 256 == b1 && (v / 65536) % 256 == b2 && (v
            / 16777216) % 256 == b3) by (bit_vector)
            requires
                v == b0 + b1 * 256 + b2 * 65536 + b3 * 16777216 && b0 < 256 && b1 < 256 && b2 < 256
                    && b3 < 256,
        ;
        assert(le32(u32_of_i32(index)) =~= ifr@.subrange(16, 20));
    }
    Some(index)
}

/// Reads the assigned IPv4 address out of the bytes of a `sockaddr_in`
/// layout, whose 4-byte address field sits at offset 4 (after the
/// 2-byte family and 2-byte port fields).  Yields nothing if and only
/// if the buffer is too short to hold that field.
pub fn ipv4_from_sockaddr_in(sa: &Vec<u8>) -> (r: Option<Ipv4>)
    ensures
        (sa@.len() >= 8) <==> (r is Some),
        r matches Some(a) ==> a.octets@ == sa@.subrange(4, 8),
{
    if sa.len() < 8 {
        return None;
    }
    let octets: [u8; 4] = [sa[4], sa[5], sa[6], sa[7]];
    proof {
        assert(octets@ =~= sa@.subrange(4, 8));
    }
    Some(Ipv4 { octets })
}

/// Reads the hardware address out of the 14-byte `sa_data` field of a
/// hardware-address query result, whose first 6 bytes hold it.  Yields
/// nothing if and only if the buffer is too short.
pub fn mac_from_sa_data(sa_data: &Vec<u8>) -> (r: Option<Mac>)
    ensures
        (sa_data@.len() >= 6) <==> (r is Some),
        r matches Some(m) ==> m.octets@ == sa_data@.subrange(0, 6),
{
    if sa_data.len() < 6 {
        return None;
    }
    let octets: [u8; 6] = [sa_data[0], sa_data[1], sa_data[2], sa_data[3], sa_data[4], sa_data[5]];
    proof {
        assert(octets@ =~= sa_data@.subrange(0, 6));
    }
    Some(Mac { octets })
}

} // verus!
