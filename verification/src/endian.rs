use vstd::prelude::*;

verus! {

/// Returns a new byte sequence in reversed order; converts between the
/// big-endian and little-endian renderings of the same integer magnitude.
pub fn to_big_endian(bytes: &[u8]) -> (r: Vec<u8>)
    ensures
        r@ == bytes@.reverse(),
{
    let n = bytes.len();
    let mut out: Vec<u8> = Vec::new();
    let mut i: usize = 0;
    while i < n
        invariant
            n == bytes@.len(),
            i <= n,
            out@.len() == i,
            forall|j: int| 0 <= j < i ==> out@[j] == bytes@[n - 1 - j],
        decreases n - i,
    {
        out.push(bytes[n - 1 - i]);
        i += 1;
    }
    proof {
        assert(out@ =~= bytes@.reverse());
    }
    out
}

/// The little-endian rendering of a 32-bit unsigned integer: four bytes,
/// least significant first.
pub open spec fn u32_le_bytes(v: u32) -> Seq<u8> {
    seq![
        (v & 0xff) as u8,
        ((v >> 8) & 0xff) as u8,
        ((v >> 16) & 0xff) as u8,
        ((v >> 24) & 0xff) as u8,
    ]
}

/// The 32-bit unsigned integer a little-endian 4-byte sequence renders.
pub open spec fn u32_from_le_bytes(b: Seq<u8>) -> u32
    recommends
        b.len() == 4,
{
    ((b[0] as u32) | ((b[1] as u32) << 8) | ((b[2] as u32) << 16) | ((b[3] as u32) << 24)) as u32
}

/// Encodes a 32-bit unsigned integer as its four little-endian bytes. Total
/// over the whole `u32` domain; no failure mode.
pub fn swap_endian_u32(num: u32) -> (r: [u8; 4])
    ensures
        r@ == u32_le_bytes(num),
{
    proof {
        assert((num & 0xff) < 256 && ((num >> 8) & 0xff) < 256 && ((num >> 16) & 0xff) < 256 && ((
        num >> 24) & 0xff) < 256) by (bit_vector);
    }
    let r = [(num & 0xff) as u8, ((num >> 8) & 0xff) as u8, ((num >> 16) & 0xff) as u8, ((num
        >> 24) & 0xff) as u8];
    proof {
        assert(r@ =~= u32_le_bytes(num));
    }
    r
}

/// Reversing a byte sequence twice yields the original sequence: byte-order
/// conversion is an involution.
pub proof fn lemma_reverse_involution(b: Seq<u8>)
    ensures
        b.reverse().reverse() == b,
{
    assert(b.reverse().reverse() =~= b);
}

/// The little-endian encoding of a `u32` has length 4, and reading it back
/// as a little-endian integer yields the value that was encoded.
pub proof fn lemma_u32_le_round_trip(v: u32)
    ensures
        u32_le_bytes(v).len() == 4,
        u32_from_le_bytes(u32_le_bytes(v)) == v,
{
    let b0 = (v & 0xff) as u8;
    let b1 = ((v >> 8) & 0xff) as u8;
    let b2 = ((v >> 16) & 0xff) as u8;
    let b3 = ((v >> 24) & 0xff) as u8;
    assert(((b0 as u32) | ((b1 as u32) << 8) | ((b2 as u32) << 16) | ((b3 as u32) << 24)) == v)
        by (bit_vector)
        requires
            b0 == (v & 0xff) as u8,
            b1 == ((v >> 8) & 0xff) as u8,
            b2 == ((v >> 16) & 0xff) as u8,
            b3 == ((v >> 24) & 0xff) as u8,
    ;
}

} // verus!
