//! SIMD instructions.

pub mod avx;
