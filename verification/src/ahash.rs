use vstd::prelude::*;

use image::GenericImageView;

use crate::errors::Error;
use crate::fingerprint::{fingerprint_from_pixels, fingerprint_spec, Fingerprint};
use crate::{EQUALITY_THRESHOLD, GRID_CELLS, GRID_SIDE};

verus! {

/// Relies on the image codec: `image::io::Reader::open` (fails only when the
/// file cannot be opened) and `Reader::decode` (fails only when the bytes
/// cannot be read or parsed as an image). A decoded image with zero width or
/// height is rejected as undecodable before resampling, because the
/// resampler does not accept an empty source. On the remaining images,
/// `DynamicImage::resize_exact` with `FilterType::Nearest` returns a grid of
/// exactly `GRID_SIDE` x `GRID_SIDE` pixels (aspect ratio not kept, no
/// interpolation), `grayscale` and `to_luma8` one 8-bit luminance channel
/// with dimensions unchanged, and `ImageBuffer::into_raw` the row-major
/// samples, one byte per pixel, so exactly `GRID_CELLS` of them.
#[verifier::external_body]
fn decode_gray_grid(image_path: &str) -> (r: Result<Vec<u8>, Error>)
    ensures
        r is Ok ==> r->Ok_0@.len() == GRID_CELLS,
        r is Err ==> r->Err_0 == Error::IOError || r->Err_0 == Error::DecodeError,
{
    let reader = match image::io::Reader::open(image_path) {
        Ok(reader) => reader,
        Err(_) => return Err(Error::IOError),
    };
    let img = match reader.decode() {
        Ok(img) => img,
        Err(_) => return Err(Error::DecodeError),
    };
    if img.width() == 0 || img.height() == 0 {
        return Err(Error::DecodeError);
    }
    let small = img.resize_exact(GRID_SIDE, GRID_SIDE, image::imageops::FilterType::Nearest);
    Ok(small.grayscale().to_luma8().into_raw())
}

/// Extract the perceptual fingerprint of the image stored at `image_path`:
/// decode it, reduce it to a `GRID_SIDE` x `GRID_SIDE` grayscale grid with a
/// nearest-neighbor resize, and set one bit per cell whose luminance is less
/// than or equal to the grid's floor average. On failure no fingerprint is
/// returned, only the error.
pub fn ahash(image_path: &str) -> (r: Result<Fingerprint, Error>)
    ensures
        r is Ok ==> r->Ok_0@.len() == GRID_CELLS,
        r is Ok ==> exists|p: Seq<u8>|
            p.len() == GRID_CELLS && r->Ok_0@ == fingerprint_spec(p),
        r is Err ==> r->Err_0 == Error::IOError || r->Err_0 == Error::DecodeError,
{
    let pixels = match decode_gray_grid(image_path) {
        Ok(pixels) => pixels,
        Err(e) => {
            return Err(e);
        },
    };
    let f = fingerprint_from_pixels(&pixels);
    proof {
        assert(pixels@.len() == GRID_CELLS && f@ == fingerprint_spec(pixels@));
    }
    Ok(f)
}

/// Number of positions among the first `n` at which `a` and `b` disagree.
pub open spec fn hamming_prefix(a: Seq<bool>, b: Seq<bool>, n: int) -> int
    decreases n,
{
    if n <= 0 {
        0
    } else {
        hamming_prefix(a, b, n - 1) + if a[n - 1] != b[n - 1] {
            1int
        } else {
            0int
        }
    }
}

/// The Hamming distance of two equally long bit strings: the number of
/// positions at which they disagree.
pub open spec fn hamming_spec(a: Seq<bool>, b: Seq<bool>) -> int {
    hamming_prefix(a, b, a.len() as int)
}

proof fn lemma_hamming_prefix_bounds(a: Seq<bool>, b: Seq<bool>, n: int)
    requires
        n >= 0,
    ensures
        0 <= hamming_prefix(a, b, n) <= n,
    decreases n,
{
    if n > 0 {
        lemma_hamming_prefix_bounds(a, b, n - 1);
    }
}

/// The distance is never negative and never exceeds the strings' length.
pub proof fn lemma_hamming_bounds(a: Seq<bool>, b: Seq<bool>)
    ensures
        0 <= hamming_spec(a, b) <= a.len(),
{
    lemma_hamming_prefix_bounds(a, b, a.len() as int);
}

proof fn lemma_hamming_prefix_symmetric(a: Seq<bool>, b: Seq<bool>, n: int)
    ensures
        hamming_prefix(a, b, n) == hamming_prefix(b, a, n),
    decreases n,
{
    if n > 0 {
        lemma_hamming_prefix_symmetric(a, b, n - 1);
    }
}

/// The distance does not depend on the order of its arguments.
pub proof fn lemma_hamming_symmetric(a: Seq<bool>, b: Seq<bool>)
    requires
        a.len() == b.len(),
    ensures
        hamming_spec(a, b) == hamming_spec(b, a),
{
    lemma_hamming_prefix_symmetric(a, b, a.len() as int);
}

proof fn lemma_hamming_prefix_identity(a: Seq<bool>, n: int)
    ensures
        hamming_prefix(a, a, n) == 0,
    decreases n,
{
    if n > 0 {
        lemma_hamming_prefix_identity(a, n - 1);
    }
}

/// A bit string is at distance zero from itself.
pub proof fn lemma_hamming_identity(a: Seq<bool>)
    ensures
        hamming_spec(a, a) == 0,
{
    lemma_hamming_prefix_identity(a, a.len() as int);
}

/// A bit string is at distance zero from itself, so a fingerprint compared
/// with itself always falls under the equality threshold: a decodable image
/// is always judged equal to itself.
pub proof fn lemma_fingerprint_matches_itself(a: Seq<bool>)
    ensures
        hamming_spec(a, a) < EQUALITY_THRESHOLD,
{
    lemma_hamming_identity(a);
}

/// The Hamming distance of two fingerprints: how many bit positions disagree.
/// Fingerprints of unequal length have no distance; comparing them fails with
/// `LengthMismatch` and never yields a number.
pub fn hamming_distance(hash_one: &Fingerprint, hash_two: &Fingerprint) -> (r: Result<
    u8,
    Error,
>)
    requires
        hash_one@.len() <= u8::MAX as usize,
    ensures
        r is Ok <==> hash_one@.len() == hash_two@.len(),
        r is Ok ==> r->Ok_0 == hamming_spec(hash_one@, hash_two@),
        r is Ok ==> 0 <= r->Ok_0 <= hash_one@.len(),
        r is Err ==> r->Err_0 == Error::LengthMismatch,
{
    if hash_one.len() != hash_two.len() {
        return Err(Error::LengthMismatch);
    }
    let n = hash_one.len();
    let mut count: u8 = 0;
    let mut i: usize = 0;
    while i < n
        invariant
            i <= n,
            n == hash_one@.len(),
            n == hash_two@.len(),
            n <= u8::MAX as usize,
            count == hamming_prefix(hash_one@, hash_two@, i as int),
            count <= i,
        decreases n - i,
    {
        if hash_one.bit(i) != hash_two.bit(i) {
            count = count + 1;
        }
        i = i + 1;
    }
    Ok(count)
}

/// Decide whether two fingerprints describe the same picture: true exactly
/// when their Hamming distance is strictly below `EQUALITY_THRESHOLD`, so a
/// distance one under the threshold passes and the threshold itself fails.
pub fn fingerprints_match(hash_one: &Fingerprint, hash_two: &Fingerprint) -> (r: Result<
    bool,
    Error,
>)
    requires
        hash_one@.len() <= u8::MAX as usize,
    ensures
        hash_one@.len() == hash_two@.len() ==> r == Ok::<bool, Error>(
            hamming_spec(hash_one@, hash_two@) < EQUALITY_THRESHOLD,
        ),
        hash_one@.len() != hash_two@.len() ==> r == Err::<bool, Error>(Error::LengthMismatch),
{
    match hamming_distance(hash_one, hash_two) {
        Ok(distance) => Ok(distance < EQUALITY_THRESHOLD),
        Err(e) => Err(e),
    }
}

/// Decide whether the images stored at the two paths are visually the same:
/// extract both fingerprints and test their Hamming distance against
/// `EQUALITY_THRESHOLD`. Extraction failures are surfaced unchanged; since
/// every extracted fingerprint has `GRID_CELLS` bits, the comparison itself
/// never fails, so no `LengthMismatch` can come back.
pub fn are_images_equal(image_1: &str, image_2: &str) -> (r: Result<bool, Error>)
    ensures
        r is Ok ==> exists|p: Seq<u8>, q: Seq<u8>|
            p.len() == GRID_CELLS && q.len() == GRID_CELLS && r->Ok_0 == (hamming_spec(
                fingerprint_spec(p),
                fingerprint_spec(q),
            ) < EQUALITY_THRESHOLD),
        r is Err ==> r->Err_0 == Error::IOError || r->Err_0 == Error::DecodeError,
{
    let hash_one = match ahash(image_1) {
        Ok(f) => f,
        Err(e) => {
            return Err(e);
        },
    };
    let hash_two = match ahash(image_2) {
        Ok(f) => f,
        Err(e) => {
            return Err(e);
        },
    };
    let verdict = match fingerprints_match(&hash_one, &hash_two) {
        Ok(verdict) => verdict,
        Err(e) => {
            return Err(e);
        },
    };
    proof {
        let p = choose|p: Seq<u8>| p.len() == GRID_CELLS && hash_one@ == fingerprint_spec(p);
        let q = choose|q: Seq<u8>| q.len() == GRID_CELLS && hash_two@ == fingerprint_spec(q);
        assert(p.len() == GRID_CELLS && q.len() == GRID_CELLS && verdict == (hamming_spec(
            fingerprint_spec(p),
            fingerprint_spec(q),
        ) < EQUALITY_THRESHOLD));
    }
    Ok(verdict)
}

} // verus!
