use vstd::prelude::*;

pub mod ahash;
pub mod errors;
pub mod fingerprint;

verus! {

/// Side length of the reduced pixel grid that a fingerprint samples.
pub const GRID_SIDE: u32 = 8;

/// Number of cells in the reduced grid, and so the number of bits in a
/// fingerprint.
pub const GRID_CELLS: usize = 64;

/// Two fingerprints whose Hamming distance is strictly below this value
/// are judged to describe the same picture.
pub const EQUALITY_THRESHOLD: u8 = 10;

} // verus!
