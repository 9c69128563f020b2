//! Typed identifiers of the TPM 2.0 interface and their numeric wire codes.
//!
//! A Trusted Platform Module names every algorithm it knows by a 16-bit
//! code from the TCG algorithm registry. This crate holds the closed set of
//! algorithms as an enumeration and converts between an [`Algorithm`] and
//! its code in both directions. Every algorithm has exactly one code; a
//! code that the registry does not assign is rejected with an
//! [`Error`] that carries it, and is never mapped to some nearby or default
//! algorithm.
//!
//! [`Algorithm`]: constants::algorithm::Algorithm
//! [`Error`]: error::Error
pub mod constants;
pub mod error;

pub use constants::algorithm::Algorithm;
pub use error::Error;
