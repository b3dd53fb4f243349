//! Little-endian encoding of the 32-bit values carried by the total-size
//! and finished-upload characteristics.

use vstd::prelude::*;

verus! {

/// The number the four little-endian bytes spell.
pub open spec fn le32_value(s: Seq<u8>) -> nat {
    (s[0] as nat) + 256 * (s[1] as nat) + 65536 * (s[2] as nat) + 16777216 * (s[3] as nat)
}

/// The four little-endian bytes of `n`.
pub open spec fn le32_bytes(n: u32) -> Seq<u8> {
    seq![
        (n % 256) as u8,
        ((n / 256) % 256) as u8,
        ((n / 65536) % 256) as u8,
        (n / 16777216) as u8,
    ]
}

/// Reads a 32-bit value from its four little-endian bytes.
pub fn parse_le32(data: &[u8]) -> (n: u32)
    requires
        data@.len() == 4,
    ensures
        n as nat == le32_value(data@),
{
    let b0 = data[0] as u32;
    let b1 = data[1] as u32;
    let b2 = data[2] as u32;
    let b3 = data[3] as u32;
    b0 + 256 * b1 + 65536 * b2 + 16777216 * b3
}

/// Writes `n` as its four little-endian bytes.
pub fn encode_le32(n: u32) -> (v: Vec<u8>)
    ensures
        v@ == le32_bytes(n),
{
    let mut v: Vec<u8> = Vec::new();
    v.push((n % 256) as u8);
    v.push(((n / 256) % 256) as u8);
    v.push(((n / 65536) % 256) as u8);
    v.push((n / 16777216) as u8);
    proof {
        assert(v@ =~= le32_bytes(n));
    }
    v
}

/// The two directions agree: the four bytes of `n` spell `n` again.
pub proof fn lemma_le32_roundtrip(n: u32)
    ensures
        le32_value(le32_bytes(n)) == n,
{
    assert(n % 256 + 256 * ((n / 256) % 256) + 65536 * ((n / 65536) % 256) + 16777216 * (n
        / 16777216) == n) by (bit_vector);
}

} // verus!
