//! The 16-byte device configuration window published to the guest: the
//! guest-physical start address and the mapping size, little-endian.

use vstd::prelude::*;

verus! {

/// Device configuration as the guest sees it.
#[derive(Clone, Copy, Debug)]
pub struct ConfigSpace {
    /// Guest-physical address of the first byte of the pmem region.
    pub start: u64,
    /// Length of the region in bytes.
    pub size: u64,
}

/// Byte `i` of the little-endian encoding of `x`.
pub open spec fn le_byte(x: u64, i: int) -> u8 {
    (x >> ((8 * i) as u64)) as u8
}

/// The 8-byte little-endian encoding of `x`.
pub open spec fn le_bytes_u64(x: u64) -> Seq<u8> {
    Seq::new(8, |i: int| le_byte(x, i))
}

/// The value read back from an 8-byte little-endian window.
pub open spec fn u64_from_le(s: Seq<u8>) -> u64
    recommends
        s.len() == 8,
{
    (s[0] as u64) | ((s[1] as u64) << 8) | ((s[2] as u64) << 16) | ((s[3] as u64) << 24)
        | ((s[4] as u64) << 32) | ((s[5] as u64) << 40) | ((s[6] as u64) << 48)
        | ((s[7] as u64) << 56)
}

/// Decoding the little-endian encoding of a value yields that value back.
pub proof fn lemma_le_roundtrip(x: u64)
    ensures
        u64_from_le(le_bytes_u64(x)) == x,
{
    let s = le_bytes_u64(x);
    assert(s[0] == (x >> 0) as u8);
    assert(s[1] == (x >> 8) as u8);
    assert(s[2] == (x >> 16) as u8);
    assert(s[3] == (x >> 24) as u8);
    assert(s[4] == (x >> 32) as u8);
    assert(s[5] == (x >> 40) as u8);
    assert(s[6] == (x >> 48) as u8);
    assert(s[7] == (x >> 56) as u8);
    assert((((x >> 0) as u8) as u64) | ((((x >> 8) as u8) as u64) << 8)
        | ((((x >> 16) as u8) as u64) << 16) | ((((x >> 24) as u8) as u64) << 24)
        | ((((x >> 32) as u8) as u64) << 32) | ((((x >> 40) as u8) as u64) << 40)
        | ((((x >> 48) as u8) as u64) << 48) | ((((x >> 56) as u8) as u64) << 56) == x)
        by (bit_vector);
}

impl ConfigSpace {
    /// The 16-byte window the guest reads: `start` then `size`, little-endian.
    pub open spec fn bytes(self) -> Seq<u8> {
        le_bytes_u64(self.start) + le_bytes_u64(self.size)
    }

    /// Encode the configuration as its 16-byte guest-visible window.
    pub fn to_bytes(&self) -> (r: Vec<u8>)
        ensures
            r@ == self.bytes(),
            r@.len() == 16,
    {
        let mut r: Vec<u8> = Vec::new();
        let mut word = self.start;
        let mut w: usize = 0;
        while w < 2
            invariant
                w <= 2,
                w == 0 ==> r@ =~= Seq::<u8>::empty() && word == self.start,
                w == 1 ==> r@ =~= le_bytes_u64(self.start) && word == self.size,
                w == 2 ==> r@ =~= self.bytes(),
            decreases 2 - w,
        {
            let ghost base = r@;
            let ghost x = word;
            let mut i: usize = 0;
            while i < 8
                invariant
                    i <= 8,
                    word == x,
                    r@ =~= base + Seq::new(i as nat, |j: int| le_byte(x, j)),
                decreases 8 - i,
            {
                let b = #[verifier::truncate] ((word >> ((8 * i) as u64)) as u8);
                r.push(b);
                i = i + 1;
            }
            proof {
                assert(Seq::new(8, |j: int| le_byte(x, j)) =~= le_bytes_u64(x));
            }
            if w == 0 {
                word = self.size;
            }
            w = w + 1;
        }
        proof {
            assert(r@ =~= self.bytes());
        }
        r
    }
}

/// Config-space round trip: the `start` and `size` written at construction are
/// exactly what an 8-byte little-endian read of the corresponding window
/// yields back.
pub proof fn lemma_config_roundtrip(cs: ConfigSpace)
    ensures
        u64_from_le(cs.bytes().subrange(0, 8)) == cs.start,
        u64_from_le(cs.bytes().subrange(8, 16)) == cs.size,
{
    assert(cs.bytes().subrange(0, 8) =~= le_bytes_u64(cs.start));
    assert(cs.bytes().subrange(8, 16) =~= le_bytes_u64(cs.size));
    lemma_le_roundtrip(cs.start);
    lemma_le_roundtrip(cs.size);
}

} // verus!
