//! Numeric identifiers as the TPM 2.0 specification publishes them.
//!
//! The values are those of the TCG algorithm registry and are not design
//! choices: they have to match the published registry bit for bit.
#![allow(non_camel_case_types)]

use vstd::prelude::*;

verus! {

/// The wire type of an algorithm identifier: a 16-bit unsigned integer.
pub type TPM2_ALG_ID = u16;

/// Marks an absent or failed selection; never names a real algorithm.
pub const TPM2_ALG_ERROR: TPM2_ALG_ID = 0x0000;

/// The RSA algorithm.
pub const TPM2_ALG_RSA: TPM2_ALG_ID = 0x0001;

/// Triple DES.
pub const TPM2_ALG_TDES: TPM2_ALG_ID = 0x0003;

/// SHA-1. The registry publishes the same value under the name
/// `TPM2_ALG_SHA`.
pub const TPM2_ALG_SHA1: TPM2_ALG_ID = 0x0004;

/// Hash message authentication code.
pub const TPM2_ALG_HMAC: TPM2_ALG_ID = 0x0005;

/// The AES block cipher.
pub const TPM2_ALG_AES: TPM2_ALG_ID = 0x0006;

/// The MGF1 mask generation function.
pub const TPM2_ALG_MGF1: TPM2_ALG_ID = 0x0007;

/// A keyed-hash object.
pub const TPM2_ALG_KEYEDHASH: TPM2_ALG_ID = 0x0008;

/// XOR obfuscation.
pub const TPM2_ALG_XOR: TPM2_ALG_ID = 0x000A;

/// SHA-256.
pub const TPM2_ALG_SHA256: TPM2_ALG_ID = 0x000B;

/// SHA-384.
pub const TPM2_ALG_SHA384: TPM2_ALG_ID = 0x000C;

/// SHA-512.
pub const TPM2_ALG_SHA512: TPM2_ALG_ID = 0x000D;

/// The null algorithm.
pub const TPM2_ALG_NULL: TPM2_ALG_ID = 0x0010;

/// SM3 with a 256-bit digest.
pub const TPM2_ALG_SM3_256: TPM2_ALG_ID = 0x0012;

/// The SM4 block cipher.
pub const TPM2_ALG_SM4: TPM2_ALG_ID = 0x0013;

/// RSA signing with PKCS#1 v1.5 padding.
pub const TPM2_ALG_RSASSA: TPM2_ALG_ID = 0x0014;

/// RSA encryption with PKCS#1 v1.5 padding.
pub const TPM2_ALG_RSAES: TPM2_ALG_ID = 0x0015;

/// RSA signing with PSS padding.
pub const TPM2_ALG_RSAPSS: TPM2_ALG_ID = 0x0016;

/// RSA encryption with OAEP padding.
pub const TPM2_ALG_OAEP: TPM2_ALG_ID = 0x0017;

/// Elliptic-curve DSA.
pub const TPM2_ALG_ECDSA: TPM2_ALG_ID = 0x0018;

/// Elliptic-curve Diffie-Hellman.
pub const TPM2_ALG_ECDH: TPM2_ALG_ID = 0x0019;

/// Elliptic-curve direct anonymous attestation.
pub const TPM2_ALG_ECDAA: TPM2_ALG_ID = 0x001A;

/// SM2 on elliptic curves.
pub const TPM2_ALG_SM2: TPM2_ALG_ID = 0x001B;

/// Elliptic-curve Schnorr signatures.
pub const TPM2_ALG_ECSCHNORR: TPM2_ALG_ID = 0x001C;

/// Elliptic-curve MQV key agreement.
pub const TPM2_ALG_ECMQV: TPM2_ALG_ID = 0x001D;

/// The concatenation key derivation function of SP 800-56A.
pub const TPM2_ALG_KDF1_SP800_56A: TPM2_ALG_ID = 0x0020;

/// The KDF2 key derivation function of IEEE 1363a.
pub const TPM2_ALG_KDF2: TPM2_ALG_ID = 0x0021;

/// The counter-mode key derivation function of SP 800-108.
pub const TPM2_ALG_KDF1_SP800_108: TPM2_ALG_ID = 0x0022;

/// An elliptic-curve key.
pub const TPM2_ALG_ECC: TPM2_ALG_ID = 0x0023;

/// A symmetric block cipher object.
pub const TPM2_ALG_SYMCIPHER: TPM2_ALG_ID = 0x0025;

/// The Camellia block cipher.
pub const TPM2_ALG_CAMELLIA: TPM2_ALG_ID = 0x0026;

/// SHA3-256.
pub const TPM2_ALG_SHA3_256: TPM2_ALG_ID = 0x0027;

/// SHA3-384.
pub const TPM2_ALG_SHA3_384: TPM2_ALG_ID = 0x0028;

/// SHA3-512.
pub const TPM2_ALG_SHA3_512: TPM2_ALG_ID = 0x0029;

/// Block-cipher-based message authentication code.
pub const TPM2_ALG_CMAC: TPM2_ALG_ID = 0x003F;

/// Counter mode.
pub const TPM2_ALG_CTR: TPM2_ALG_ID = 0x0040;

/// Output feedback mode.
pub const TPM2_ALG_OFB: TPM2_ALG_ID = 0x0041;

/// Cipher block chaining mode.
pub const TPM2_ALG_CBC: TPM2_ALG_ID = 0x0042;

/// Cipher feedback mode.
pub const TPM2_ALG_CFB: TPM2_ALG_ID = 0x0043;

/// Electronic codebook mode.
pub const TPM2_ALG_ECB: TPM2_ALG_ID = 0x0044;

} // verus!
