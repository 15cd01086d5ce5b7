//! Agent and flow addresses as plain bytes, normalized to the 16-byte IPv6
//! form used by the output schema. IPv4 addresses are carried in the
//! IPv4-mapped IPv6 form (ten zero bytes, two 0xFF bytes, then the four
//! IPv4 octets).

use vstd::prelude::*;

verus! {

/// An agent or endpoint address: four IPv4 octets, sixteen IPv6 octets, or
/// unknown (serialized as the unspecified IPv6 address).
#[derive(Clone, Copy, Debug, PartialEq, Eq)]
pub enum Address {
    IPv4([u8; 4]),
    IPv6([u8; 16]),
    Unknown,
}

/// The IPv4-mapped IPv6 form of four IPv4 octets.
pub open spec fn mapped_v6_bytes(a: u8, b: u8, c: u8, d: u8) -> Seq<u8> {
    seq![0u8, 0u8, 0u8, 0u8, 0u8, 0u8, 0u8, 0u8, 0u8, 0u8, 0xFFu8, 0xFFu8, a, b, c, d]
}

/// The 16 serialized bytes of an address.
pub open spec fn address_bytes(addr: Address) -> Seq<u8> {
    match addr {
        Address::IPv4(o) => mapped_v6_bytes(o[0], o[1], o[2], o[3]),
        Address::IPv6(o) => o@,
        Address::Unknown => Seq::new(16, |i: int| 0u8),
    }
}

/// Serialize an address to its 16-byte IPv6 form; IPv4 addresses come out
/// IPv4-mapped, unknown addresses come out as all zeros.
pub fn serialize_address(addr: &Address) -> (r: Vec<u8>)
    ensures
        r@ == address_bytes(*addr),
        r@.len() == 16,
{
    match addr {
        Address::IPv4(o) => {
            let v: Vec<u8> = vec![
                0u8, 0u8, 0u8, 0u8, 0u8, 0u8, 0u8, 0u8, 0u8, 0u8, 0xFFu8, 0xFFu8, o[0], o[1],
                o[2], o[3],
            ];
            assert(v@ =~= mapped_v6_bytes(o[0], o[1], o[2], o[3]));
            v
        }
        Address::IPv6(o) => {
            let mut v: Vec<u8> = Vec::new();
            let mut i: usize = 0;
            while i < 16
                invariant
                    i <= 16,
                    v@ == o@.take(i as int),
                decreases 16 - i,
            {
                v.push(o[i]);
                i = i + 1;
            }
            assert(v@ =~= o@);
            v
        }
        Address::Unknown => {
            let mut v: Vec<u8> = Vec::new();
            let mut i: usize = 0;
            while i < 16
                invariant
                    i <= 16,
                    v@ == Seq::new(i as nat, |j: int| 0u8),
                decreases 16 - i,
            {
                v.push(0u8);
                i = i + 1;
                assert(v@ =~= Seq::new(i as nat, |j: int| 0u8));
            }
            v
        }
    }
}

/// Whether 16 bytes are an IPv4-mapped IPv6 address.
pub open spec fn is_ipv4_mapped(s: Seq<u8>) -> bool {
    &&& s.len() == 16
    &&& (forall|i: int| 0 <= i < 10 ==> s[i] == 0u8)
    &&& s[10] == 0xFFu8
    &&& s[11] == 0xFFu8
}

/// Recover the four IPv4 octets from a 16-byte buffer holding an
/// IPv4-mapped address; `None` when the buffer is not in that form.
pub fn mapped_to_ipv4(b: &Vec<u8>) -> (r: Option<[u8; 4]>)
    ensures
        r is Some <==> is_ipv4_mapped(b@),
        r is Some ==> r->0@ =~= b@.subrange(12, 16),
{
    if b.len() != 16 {
        return None;
    }
    let mut i: usize = 0;
    while i < 10
        invariant
            i <= 10,
            b@.len() == 16,
            forall|j: int| 0 <= j < i ==> b@[j] == 0u8,
        decreases 10 - i,
    {
        if b[i] != 0 {
            return None;
        }
        i = i + 1;
    }
    if b[10] != 0xFF || b[11] != 0xFF {
        return None;
    }
    let r: [u8; 4] = [b[12], b[13], b[14], b[15]];
    assert(r@ =~= b@.subrange(12, 16));
    Some(r)
}

/// Round trip: serializing four IPv4 octets to the IPv4-mapped form and
/// reading them back recovers the original octets.
pub proof fn lemma_ipv4_mapped_round_trip(a: u8, b: u8, c: u8, d: u8)
    ensures
        is_ipv4_mapped(mapped_v6_bytes(a, b, c, d)),
        mapped_v6_bytes(a, b, c, d).subrange(12, 16) =~= seq![a, b, c, d],
{
}

} // verus!
