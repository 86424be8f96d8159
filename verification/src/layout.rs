//! Mapping-size arithmetic and the byte-level model of the published mapping:
//! a file's contents followed by a zeroed tail, rounded up to the alignment.

use vstd::prelude::*;

use crate::ALIGNMENT;

verus! {

/// `x` rounded up to the next multiple of `ALIGNMENT`, as mathematical integers.
pub open spec fn spec_align_up(x: int) -> int {
    ((x + ALIGNMENT - 1) / (ALIGNMENT as int)) * (ALIGNMENT as int)
}

/// Round `x` up to the next multiple of `ALIGNMENT`.
///
/// This fixes the size of the host mapping backing a pmem region: the whole
/// backing file fits, and the region stays 2 MiB-aligned.
pub fn align_up(x: u64) -> (r: u64)
    requires
        x + ALIGNMENT - 1 <= u64::MAX,
    ensures
        r == spec_align_up(x as int),
        r % ALIGNMENT == 0,
        r >= x,
        r < x + ALIGNMENT,
{
    proof {
        lemma_align_up_properties(x as int);
    }
    ((x + (ALIGNMENT - 1)) / ALIGNMENT) * ALIGNMENT
}

/// Rounding up to the alignment yields the least aligned value at or above `x`.
pub proof fn lemma_align_up_properties(x: int)
    requires
        x >= 0,
    ensures
        spec_align_up(x) % (ALIGNMENT as int) == 0,
        spec_align_up(x) >= x,
        spec_align_up(x) < x + ALIGNMENT,
{
    let a = ALIGNMENT as int;
    let q = (x + a - 1) / a;
    vstd::arithmetic::div_mod::lemma_fundamental_div_mod(x + a - 1, a);
    vstd::arithmetic::div_mod::lemma_mod_bound(x + a - 1, a);
    assert(q * a == x + a - 1 - ((x + a - 1) % a));
    vstd::arithmetic::div_mod::lemma_mod_multiples_basic(q, a);
}

/// Build the byte contents the two-step anchor-and-overlay mapping publishes:
/// the backing file's bytes at their offsets, then a zeroed tail up to the
/// mapping size. Reads below the file size alias the file; reads from the
/// file size up to the mapping size return zero.
pub fn mapping_contents(file: &Vec<u8>, mapping_size: usize) -> (r: Vec<u8>)
    requires
        file@.len() <= mapping_size,
    ensures
        r@.len() == mapping_size,
        forall|o: int| 0 <= o < file@.len() ==> r@[o] == file@[o],
        forall|o: int| file@.len() <= o < mapping_size ==> r@[o] == 0,
{
    let mut r: Vec<u8> = Vec::new();
    let n = file.len();
    let mut i: usize = 0;
    while i < n
        invariant
            i <= n,
            n == file@.len(),
            r@.len() == i,
            forall|o: int| 0 <= o < i ==> r@[o] == file@[o],
        decreases n - i,
    {
        r.push(file[i]);
        i = i + 1;
    }
    while i < mapping_size
        invariant
            n <= i <= mapping_size,
            n == file@.len(),
            r@.len() == i,
            forall|o: int| 0 <= o < n ==> r@[o] == file@[o],
            forall|o: int| n <= o < i ==> r@[o] == 0,
        decreases mapping_size - i,
    {
        r.push(0);
        i = i + 1;
    }
    r
}

} // verus!
