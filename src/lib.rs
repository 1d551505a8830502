//! Fast approximate inverse square root, decided at the level of IEEE-754 bit
//! patterns: the edge-case policy and the magic-constant estimate for the
//! 32-bit and the 64-bit binary formats.

pub mod binary32;
pub mod binary64;
pub mod estimate;
