//! The numeric constants of the TPM 2.0 specification and the enumerations
//! built on them.
pub mod algorithm;
pub mod table;
pub mod tss;
