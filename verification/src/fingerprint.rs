use vstd::prelude::*;

use crate::GRID_CELLS;

verus! {

/// Sum of a sequence of luminance bytes.
pub open spec fn luma_sum(s: Seq<u8>) -> int
    decreases s.len(),
{
    if s.len() == 0 {
        0
    } else {
        luma_sum(s.drop_last()) + s.last()
    }
}

/// The average luminance used by the hash: the sum of the grid's bytes under
/// integer (floor) division by the number of grid cells.
pub open spec fn average_luma(s: Seq<u8>) -> int {
    luma_sum(s) / (GRID_CELLS as int)
}

/// The fingerprint of a row-major grid of luminance bytes: bit `i` is set
/// exactly when pixel `i` is no brighter than the average (the tie goes to
/// the set bit: `<=`, not `<`).
pub open spec fn fingerprint_spec(s: Seq<u8>) -> Seq<bool> {
    Seq::new(s.len(), |i: int| s[i] <= average_luma(s))
}

/// A perceptual fingerprint: an ordered bit vector, one bit per cell of the
/// reduced grayscale grid. Extraction always produces `GRID_CELLS` bits.
pub struct Fingerprint {
    bits: Vec<bool>,
}

impl View for Fingerprint {
    type V = Seq<bool>;

    closed spec fn view(&self) -> Seq<bool> {
        self.bits@
    }
}

impl Fingerprint {
    /// Wrap an explicit bit vector as a fingerprint.
    pub fn from_bits(bits: Vec<bool>) -> (f: Fingerprint)
        ensures
            f@ == bits@,
    {
        Fingerprint { bits }
    }

    /// The number of bits in this fingerprint.
    pub fn len(&self) -> (n: usize)
        ensures
            n == self@.len(),
    {
        self.bits.len()
    }

    /// The bit at position `i`.
    pub fn bit(&self, i: usize) -> (b: bool)
        requires
            i < self@.len(),
        ensures
            b == self@[i as int],
    {
        self.bits[i]
    }
}

/// The luminance sum of a sequence is non-negative and at most 255 per byte.
proof fn lemma_luma_sum_bounds(s: Seq<u8>)
    ensures
        0 <= luma_sum(s) <= s.len() * 255,
    decreases s.len(),
{
    if s.len() > 0 {
        lemma_luma_sum_bounds(s.drop_last());
    }
}

/// Extending a prefix by one byte adds that byte to its luminance sum.
proof fn lemma_luma_sum_take_step(s: Seq<u8>, i: int)
    requires
        0 <= i < s.len(),
    ensures
        luma_sum(s.take(i + 1)) == luma_sum(s.take(i)) + s[i],
{
    assert(s.take(i + 1).drop_last() =~= s.take(i));
    assert(s.take(i + 1).last() == s[i]);
}

/// Reduce a row-major grid of luminance bytes to its fingerprint: compute the
/// floor average of the bytes, then set each bit whose pixel is less than or
/// equal to that average.
pub fn fingerprint_from_pixels(pixels: &Vec<u8>) -> (f: Fingerprint)
    requires
        pixels@.len() == GRID_CELLS,
    ensures
        f@ == fingerprint_spec(pixels@),
        f@.len() == GRID_CELLS,
{
    let n = pixels.len();
    let mut sum: u32 = 0;
    let mut i: usize = 0;
    while i < n
        invariant
            i <= n,
            n == pixels@.len(),
            n == GRID_CELLS,
            sum == luma_sum(pixels@.take(i as int)),
        decreases n - i,
    {
        proof {
            lemma_luma_sum_bounds(pixels@.take(i as int));
            lemma_luma_sum_take_step(pixels@, i as int);
        }
        sum = sum + pixels[i] as u32;
        i = i + 1;
    }
    proof {
        assert(pixels@.take(n as int) =~= pixels@);
    }
    let average: u32 = sum / (GRID_CELLS as u32);
    assert(average as int == average_luma(pixels@));
    let mut bits: Vec<bool> = Vec::new();
    let mut j: usize = 0;
    while j < n
        invariant
            j <= n,
            n == pixels@.len(),
            average as int == average_luma(pixels@),
            bits@.len() == j,
            forall|k: int| 0 <= k < j ==> bits@[k] == (pixels@[k] <= average_luma(pixels@)),
        decreases n - j,
    {
        bits.push(pixels[j] as u32 <= average);
        j = j + 1;
    }
    proof {
        assert(bits@ =~= fingerprint_spec(pixels@));
    }
    Fingerprint { bits }
}

/// The fingerprint is a function of the grid's luminance bytes alone: equal
/// grids always yield identical fingerprints, however often extraction runs.
pub proof fn lemma_fingerprint_deterministic(p: Seq<u8>, q: Seq<u8>)
    requires
        p == q,
    ensures
        fingerprint_spec(p) == fingerprint_spec(q),
{
}

} // verus!
