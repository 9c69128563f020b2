//! The algorithms of the TPM 2.0 registry and their wire codes.
//!
//! [`Algorithm`] is the closed set of algorithms. Two conversions join it to
//! the 16-bit codes that travel to and from the device:
//!
//! * `TPM2_ALG_ID::from(algorithm)` gives the code of an algorithm. It is
//!   total: every algorithm has exactly one code.
//! * `Algorithm::try_from(code)` gives the algorithm that a code stands
//!   for. It is partial: most codes stand for nothing, and such a code is
//!   rejected with [`Error::UnrecognizedIdentifier`].
//!
//! The contracts are stated over [`Algorithm::alg_id`], the registry written
//! as a function, and the proof functions at the end of the file show that
//! the two conversions are inverse to each other.
use vstd::prelude::*;

use crate::constants::tss::{
    TPM2_ALG_AES, TPM2_ALG_CAMELLIA, TPM2_ALG_CBC, TPM2_ALG_CFB, TPM2_ALG_CMAC, TPM2_ALG_CTR,
    TPM2_ALG_ECB, TPM2_ALG_ECC, TPM2_ALG_ECDAA, TPM2_ALG_ECDH, TPM2_ALG_ECDSA, TPM2_ALG_ECMQV,
    TPM2_ALG_ECSCHNORR, TPM2_ALG_ERROR, TPM2_ALG_HMAC, TPM2_ALG_ID, TPM2_ALG_KDF1_SP800_108,
    TPM2_ALG_KDF1_SP800_56A, TPM2_ALG_KDF2, TPM2_ALG_KEYEDHASH, TPM2_ALG_MGF1, TPM2_ALG_NULL,
    TPM2_ALG_OAEP, TPM2_ALG_OFB, TPM2_ALG_RSA, TPM2_ALG_RSAES, TPM2_ALG_RSAPSS, TPM2_ALG_RSASSA,
    TPM2_ALG_SHA1, TPM2_ALG_SHA256, TPM2_ALG_SHA384, TPM2_ALG_SHA3_256, TPM2_ALG_SHA3_384,
    TPM2_ALG_SHA3_512, TPM2_ALG_SHA512, TPM2_ALG_SM2, TPM2_ALG_SM3_256, TPM2_ALG_SM4,
    TPM2_ALG_SYMCIPHER, TPM2_ALG_TDES, TPM2_ALG_XOR,
};
use crate::error::Error;

verus! {

/// An algorithm that a TPM 2.0 device can be asked to use.
///
/// The variants are the named entries of the TCG algorithm registry, one
/// variant for each.
#[allow(non_camel_case_types)]
#[derive(Copy, Clone, Debug, PartialEq, Eq, Hash, Structural)]
pub enum Algorithm {
    /// The value that marks an absent or failed algorithm selection.
    Error,
    /// The RSA algorithm.
    Rsa,
    /// Triple DES, a block cipher.
    Tdes,
    /// SHA-1. The registry also lists this code under the plain name SHA;
    /// both names mean this one variant.
    Sha1,
    /// Hash message authentication code.
    Hmac,
    /// The AES block cipher.
    Aes,
    /// The MGF1 mask generation function.
    Mgf1,
    /// An object that holds a keyed hash or an XOR obfuscation key.
    KeyedHash,
    /// XOR obfuscation with a hash-based key stream.
    Xor,
    /// SHA-256.
    Sha256,
    /// SHA-384.
    Sha384,
    /// SHA-512.
    Sha512,
    /// The null algorithm: no algorithm is selected.
    Null,
    /// The SM3 hash with a 256-bit digest.
    Sm3_256,
    /// The SM4 block cipher.
    Sm4,
    /// RSA signing with PKCS#1 v1.5 padding.
    RsaSsa,
    /// RSA encryption with PKCS#1 v1.5 padding.
    RsaEs,
    /// RSA signing with PSS padding.
    RsaPss,
    /// RSA encryption with OAEP padding.
    Oaep,
    /// Elliptic-curve DSA.
    EcDsa,
    /// Elliptic-curve Diffie-Hellman.
    EcDh,
    /// Elliptic-curve direct anonymous attestation.
    EcDaa,
    /// The SM2 elliptic-curve signature and key exchange.
    Sm2,
    /// Elliptic-curve Schnorr signatures.
    EcSchnorr,
    /// Elliptic-curve MQV key agreement.
    EcMqv,
    /// The concatenation key derivation function of SP 800-56A.
    Kdf1Sp800_56a,
    /// The KDF2 key derivation function of IEEE 1363a.
    Kdf2,
    /// The counter-mode key derivation function of SP 800-108.
    Kdf1Sp800_108,
    /// An elliptic-curve key.
    Ecc,
    /// An object that holds a symmetric block cipher key.
    SymCipher,
    /// The Camellia block cipher.
    Camellia,
    /// Block-cipher-based message authentication code.
    Cmac,
    /// Counter mode of a block cipher.
    Ctr,
    /// SHA3-256.
    Sha3_256,
    /// SHA3-384.
    Sha3_384,
    /// SHA3-512.
    Sha3_512,
    /// Output feedback mode of a block cipher.
    Ofb,
    /// Cipher block chaining mode of a block cipher.
    Cbc,
    /// Cipher feedback mode of a block cipher.
    Cfb,
    /// Electronic codebook mode of a block cipher.
    Ecb,
}

impl Algorithm {
    /// The wire code that the registry assigns to this algorithm.
    pub open spec fn alg_id(self) -> TPM2_ALG_ID {
        match self {
            Algorithm::Error => TPM2_ALG_ERROR,
            Algorithm::Rsa => TPM2_ALG_RSA,
            Algorithm::Tdes => TPM2_ALG_TDES,
            Algorithm::Sha1 => TPM2_ALG_SHA1,
            Algorithm::Hmac => TPM2_ALG_HMAC,
            Algorithm::Aes => TPM2_ALG_AES,
            Algorithm::Mgf1 => TPM2_ALG_MGF1,
            Algorithm::KeyedHash => TPM2_ALG_KEYEDHASH,
            Algorithm::Xor => TPM2_ALG_XOR,
            Algorithm::Sha256 => TPM2_ALG_SHA256,
            Algorithm::Sha384 => TPM2_ALG_SHA384,
            Algorithm::Sha512 => TPM2_ALG_SHA512,
            Algorithm::Null => TPM2_ALG_NULL,
            Algorithm::Sm3_256 => TPM2_ALG_SM3_256,
            Algorithm::Sm4 => TPM2_ALG_SM4,
            Algorithm::RsaSsa => TPM2_ALG_RSASSA,
            Algorithm::RsaEs => TPM2_ALG_RSAES,
            Algorithm::RsaPss => TPM2_ALG_RSAPSS,
            Algorithm::Oaep => TPM2_ALG_OAEP,
            Algorithm::EcDsa => TPM2_ALG_ECDSA,
            Algorithm::EcDh => TPM2_ALG_ECDH,
            Algorithm::EcDaa => TPM2_ALG_ECDAA,
            Algorithm::Sm2 => TPM2_ALG_SM2,
            Algorithm::EcSchnorr => TPM2_ALG_ECSCHNORR,
            Algorithm::EcMqv => TPM2_ALG_ECMQV,
            Algorithm::Kdf1Sp800_56a => TPM2_ALG_KDF1_SP800_56A,
            Algorithm::Kdf2 => TPM2_ALG_KDF2,
            Algorithm::Kdf1Sp800_108 => TPM2_ALG_KDF1_SP800_108,
            Algorithm::Ecc => TPM2_ALG_ECC,
            Algorithm::SymCipher => TPM2_ALG_SYMCIPHER,
            Algorithm::Camellia => TPM2_ALG_CAMELLIA,
            Algorithm::Cmac => TPM2_ALG_CMAC,
            Algorithm::Ctr => TPM2_ALG_CTR,
            Algorithm::Sha3_256 => TPM2_ALG_SHA3_256,
            Algorithm::Sha3_384 => TPM2_ALG_SHA3_384,
            Algorithm::Sha3_512 => TPM2_ALG_SHA3_512,
            Algorithm::Ofb => TPM2_ALG_OFB,
            Algorithm::Cbc => TPM2_ALG_CBC,
            Algorithm::Cfb => TPM2_ALG_CFB,
            Algorithm::Ecb => TPM2_ALG_ECB,
        }
    }

    /// Whether the registry assigns `code` to some algorithm.
    pub open spec fn is_registered(code: TPM2_ALG_ID) -> bool {
        exists|algorithm: Algorithm| #[trigger] algorithm.alg_id() == code
    }

    /// What a wire code decodes to: the algorithm whose code it is, or the
    /// error that carries the code where no algorithm has it.
    ///
    /// The algorithms are tried one after the other. By
    /// [`lemma_decodes_to_iff_code_of`] at most one of them can answer, so the
    /// order in which they are tried has no bearing on the result.
    pub open spec fn from_alg_id(code: TPM2_ALG_ID) -> Result<Algorithm, Error> {
        if code == Algorithm::Error.alg_id() {
            Ok(Algorithm::Error)
        } else if code == Algorithm::Rsa.alg_id() {
            Ok(Algorithm::Rsa)
        } else if code == Algorithm::Tdes.alg_id() {
            Ok(Algorithm::Tdes)
        } else if code == Algorithm::Sha1.alg_id() {
            Ok(Algorithm::Sha1)
        } else if code == Algorithm::Hmac.alg_id() {
            Ok(Algorithm::Hmac)
        } else if code == Algorithm::Aes.alg_id() {
            Ok(Algorithm::Aes)
        } else if code == Algorithm::Mgf1.alg_id() {
            Ok(Algorithm::Mgf1)
        } else if code == Algorithm::KeyedHash.alg_id() {
            Ok(Algorithm::KeyedHash)
        } else if code == Algorithm::Xor.alg_id() {
            Ok(Algorithm::Xor)
        } else if code == Algorithm::Sha256.alg_id() {
            Ok(Algorithm::Sha256)
        } else if code == Algorithm::Sha384.alg_id() {
            Ok(Algorithm::Sha384)
        } else if code == Algorithm::Sha512.alg_id() {
            Ok(Algorithm::Sha512)
        } else if code == Algorithm::Null.alg_id() {
            Ok(Algorithm::Null)
        } else if code == Algorithm::Sm3_256.alg_id() {
            Ok(Algorithm::Sm3_256)
        } else if code == Algorithm::Sm4.alg_id() {
            Ok(Algorithm::Sm4)
        } else if code == Algorithm::RsaSsa.alg_id() {
            Ok(Algorithm::RsaSsa)
        } else if code == Algorithm::RsaEs.alg_id() {
            Ok(Algorithm::RsaEs)
        } else if code == Algorithm::RsaPss.alg_id() {
            Ok(Algorithm::RsaPss)
        } else if code == Algorithm::Oaep.alg_id() {
            Ok(Algorithm::Oaep)
        } else if code == Algorithm::EcDsa.alg_id() {
            Ok(Algorithm::EcDsa)
        } else if code == Algorithm::EcDh.alg_id() {
            Ok(Algorithm::EcDh)
        } else if code == Algorithm::EcDaa.alg_id() {
            Ok(Algorithm::EcDaa)
        } else if code == Algorithm::Sm2.alg_id() {
            Ok(Algorithm::Sm2)
        } else if code == Algorithm::EcSchnorr.alg_id() {
            Ok(Algorithm::EcSchnorr)
        } else if code == Algorithm::EcMqv.alg_id() {
            Ok(Algorithm::EcMqv)
        } else if code == Algorithm::Kdf1Sp800_56a.alg_id() {
            Ok(Algorithm::Kdf1Sp800_56a)
        } else if code == Algorithm::Kdf2.alg_id() {
            Ok(Algorithm::Kdf2)
        } else if code == Algorithm::Kdf1Sp800_108.alg_id() {
            Ok(Algorithm::Kdf1Sp800_108)
        } else if code == Algorithm::Ecc.alg_id() {
            Ok(Algorithm::Ecc)
        } else if code == Algorithm::SymCipher.alg_id() {
            Ok(Algorithm::SymCipher)
        } else if code == Algorithm::Camellia.alg_id() {
            Ok(Algorithm::Camellia)
        } else if code == Algorithm::Cmac.alg_id() {
            Ok(Algorithm::Cmac)
        } else if code == Algorithm::Ctr.alg_id() {
            Ok(Algorithm::Ctr)
        } else if code == Algorithm::Sha3_256.alg_id() {
            Ok(Algorithm::Sha3_256)
        } else if code == Algorithm::Sha3_384.alg_id() {
            Ok(Algorithm::Sha3_384)
        } else if code == Algorithm::Sha3_512.alg_id() {
            Ok(Algorithm::Sha3_512)
        } else if code == Algorithm::Ofb.alg_id() {
            Ok(Algorithm::Ofb)
        } else if code == Algorithm::Cbc.alg_id() {
            Ok(Algorithm::Cbc)
        } else if code == Algorithm::Cfb.alg_id() {
            Ok(Algorithm::Cfb)
        } else if code == Algorithm::Ecb.alg_id() {
            Ok(Algorithm::Ecb)
        } else {
            Err(Error::UnrecognizedIdentifier { code })
        }
    }
}

impl TryFrom<TPM2_ALG_ID> for Algorithm {
    type Error = Error;

    /// Decodes a wire code.
    ///
    /// Succeeds exactly on the codes that the registry assigns, with the one
    /// algorithm that has the code. Every other code is handed back inside
    /// [`Error::UnrecognizedIdentifier`]; none is mapped to a default or to
    /// a neighbouring algorithm.
    fn try_from(tpm_alg_id: TPM2_ALG_ID) -> (decoded: Result<Algorithm, Error>)
        ensures
            decoded == Algorithm::from_alg_id(tpm_alg_id),
            decoded is Ok <==> Algorithm::is_registered(tpm_alg_id),
            decoded matches Ok(algorithm) ==> algorithm.alg_id() == tpm_alg_id,
            decoded matches Err(e) ==> e == (Error::UnrecognizedIdentifier { code: tpm_alg_id }),
    {
        match tpm_alg_id {
            TPM2_ALG_AES => Ok(Algorithm::Aes),
            TPM2_ALG_CAMELLIA => Ok(Algorithm::Camellia),
            TPM2_ALG_CBC => Ok(Algorithm::Cbc),
            TPM2_ALG_CFB => Ok(Algorithm::Cfb),
            TPM2_ALG_CMAC => Ok(Algorithm::Cmac),
            TPM2_ALG_CTR => Ok(Algorithm::Ctr),
            TPM2_ALG_ECB => Ok(Algorithm::Ecb),
            TPM2_ALG_ECC => Ok(Algorithm::Ecc),
            TPM2_ALG_ECDAA => Ok(Algorithm::EcDaa),
            TPM2_ALG_ECDH => Ok(Algorithm::EcDh),
            TPM2_ALG_ECDSA => Ok(Algorithm::EcDsa),
            TPM2_ALG_ECMQV => Ok(Algorithm::EcMqv),
            TPM2_ALG_ECSCHNORR => Ok(Algorithm::EcSchnorr),
            TPM2_ALG_ERROR => Ok(Algorithm::Error),
            TPM2_ALG_HMAC => Ok(Algorithm::Hmac),
            TPM2_ALG_KDF1_SP800_108 => Ok(Algorithm::Kdf1Sp800_108),
            TPM2_ALG_KDF1_SP800_56A => Ok(Algorithm::Kdf1Sp800_56a),
            TPM2_ALG_KDF2 => Ok(Algorithm::Kdf2),
            TPM2_ALG_KEYEDHASH => Ok(Algorithm::KeyedHash),
            TPM2_ALG_MGF1 => Ok(Algorithm::Mgf1),
            TPM2_ALG_NULL => Ok(Algorithm::Null),
            TPM2_ALG_OAEP => Ok(Algorithm::Oaep),
            TPM2_ALG_OFB => Ok(Algorithm::Ofb),
            TPM2_ALG_RSA => Ok(Algorithm::Rsa),
            TPM2_ALG_RSAES => Ok(Algorithm::RsaEs),
            TPM2_ALG_RSAPSS => Ok(Algorithm::RsaPss),
            TPM2_ALG_RSASSA => Ok(Algorithm::RsaSsa),
            TPM2_ALG_SHA1 => Ok(Algorithm::Sha1),
            TPM2_ALG_SHA256 => Ok(Algorithm::Sha256),
            TPM2_ALG_SHA384 => Ok(Algorithm::Sha384),
            TPM2_ALG_SHA3_256 => Ok(Algorithm::Sha3_256),
            TPM2_ALG_SHA3_384 => Ok(Algorithm::Sha3_384),
            TPM2_ALG_SHA3_512 => Ok(Algorithm::Sha3_512),
            TPM2_ALG_SHA512 => Ok(Algorithm::Sha512),
            TPM2_ALG_SM2 => Ok(Algorithm::Sm2),
            TPM2_ALG_SM3_256 => Ok(Algorithm::Sm3_256),
            TPM2_ALG_SM4 => Ok(Algorithm::Sm4),
            TPM2_ALG_SYMCIPHER => Ok(Algorithm::SymCipher),
            TPM2_ALG_TDES => Ok(Algorithm::Tdes),
            TPM2_ALG_XOR => Ok(Algorithm::Xor),
            _ => Err(Error::UnrecognizedIdentifier { code: tpm_alg_id }),
        }
    }
}

impl vstd::std_specs::convert::TryFromSpecImpl<TPM2_ALG_ID> for Algorithm {
    open spec fn obeys_try_from_spec() -> bool {
        true
    }

    open spec fn try_from_spec(tpm_alg_id: TPM2_ALG_ID) -> Result<Algorithm, Error> {
        Algorithm::from_alg_id(tpm_alg_id)
    }
}

impl From<Algorithm> for TPM2_ALG_ID {
    /// Encodes an algorithm as its wire code. Never fails.
    fn from(algorithm: Algorithm) -> (tpm_alg_id: TPM2_ALG_ID)
        ensures
            tpm_alg_id == algorithm.alg_id(),
            Algorithm::from_alg_id(tpm_alg_id) == Ok::<Algorithm, Error>(algorithm),
    {
        match algorithm {
            Algorithm::Aes => TPM2_ALG_AES,
            Algorithm::Camellia => TPM2_ALG_CAMELLIA,
            Algorithm::Cbc => TPM2_ALG_CBC,
            Algorithm::Cfb => TPM2_ALG_CFB,
            Algorithm::Ctr => TPM2_ALG_CTR,
            Algorithm::Ecb => TPM2_ALG_ECB,
            Algorithm::Ecc => TPM2_ALG_ECC,
            Algorithm::EcDaa => TPM2_ALG_ECDAA,
            Algorithm::EcDh => TPM2_ALG_ECDH,
            Algorithm::EcDsa => TPM2_ALG_ECDSA,
            Algorithm::EcMqv => TPM2_ALG_ECMQV,
            Algorithm::EcSchnorr => TPM2_ALG_ECSCHNORR,
            Algorithm::Error => TPM2_ALG_ERROR,
            Algorithm::Hmac => TPM2_ALG_HMAC,
            Algorithm::Kdf1Sp800_108 => TPM2_ALG_KDF1_SP800_108,
            Algorithm::Kdf1Sp800_56a => TPM2_ALG_KDF1_SP800_56A,
            Algorithm::Kdf2 => TPM2_ALG_KDF2,
            Algorithm::KeyedHash => TPM2_ALG_KEYEDHASH,
            Algorithm::Mgf1 => TPM2_ALG_MGF1,
            Algorithm::Null => TPM2_ALG_NULL,
            Algorithm::Oaep => TPM2_ALG_OAEP,
            Algorithm::Ofb => TPM2_ALG_OFB,
            Algorithm::Rsa => TPM2_ALG_RSA,
            Algorithm::RsaEs => TPM2_ALG_RSAES,
            Algorithm::RsaPss => TPM2_ALG_RSAPSS,
            Algorithm::RsaSsa => TPM2_ALG_RSASSA,
            Algorithm::Sha1 => TPM2_ALG_SHA1,
            Algorithm::Sha256 => TPM2_ALG_SHA256,
            Algorithm::Sha384 => TPM2_ALG_SHA384,
            Algorithm::Sha3_256 => TPM2_ALG_SHA3_256,
            Algorithm::Sha3_384 => TPM2_ALG_SHA3_384,
            Algorithm::Sha3_512 => TPM2_ALG_SHA3_512,
            Algorithm::Sha512 => TPM2_ALG_SHA512,
            Algorithm::Sm2 => TPM2_ALG_SM2,
            Algorithm::Sm3_256 => TPM2_ALG_SM3_256,
            Algorithm::Sm4 => TPM2_ALG_SM4,
            Algorithm::SymCipher => TPM2_ALG_SYMCIPHER,
            Algorithm::Tdes => TPM2_ALG_TDES,
            Algorithm::Xor => TPM2_ALG_XOR,
            Algorithm::Cmac => TPM2_ALG_CMAC,
        }
    }
}

impl vstd::std_specs::convert::FromSpecImpl<Algorithm> for TPM2_ALG_ID {
    open spec fn obeys_from_spec() -> bool {
        true
    }

    open spec fn from_spec(algorithm: Algorithm) -> TPM2_ALG_ID {
        algorithm.alg_id()
    }
}

/// Decoding undoes encoding: the code of an algorithm decodes to that
/// algorithm.
pub proof fn lemma_decode_of_encode(algorithm: Algorithm)
    ensures
        Algorithm::from_alg_id(algorithm.alg_id()) == Ok::<Algorithm, Error>(algorithm),
{
}

/// Encoding undoes decoding: where a code decodes to an algorithm, that
/// algorithm's code is the code that was decoded.
pub proof fn lemma_encode_of_decode(code: TPM2_ALG_ID)
    ensures
        Algorithm::from_alg_id(code) matches Ok(algorithm) ==> algorithm.alg_id() == code,
{
}

/// No two algorithms share a code.
pub proof fn lemma_alg_id_injective(first: Algorithm, second: Algorithm)
    requires
        first != second,
    ensures
        first.alg_id() != second.alg_id(),
{
}

/// A code decodes to an algorithm if and only if it is that algorithm's
/// code. Decoding is thereby fixed by the registry alone: it is the one
/// partial inverse of [`Algorithm::alg_id`].
pub proof fn lemma_decodes_to_iff_code_of(code: TPM2_ALG_ID, algorithm: Algorithm)
    ensures
        Algorithm::from_alg_id(code) == Ok::<Algorithm, Error>(algorithm) <==> algorithm.alg_id()
            == code,
{
}

/// A code is rejected if and only if the registry assigns it to no
/// algorithm, and the error then carries the code unchanged.
pub proof fn lemma_rejects_iff_unregistered(code: TPM2_ALG_ID)
    ensures
        Algorithm::from_alg_id(code) is Err <==> !Algorithm::is_registered(code),
        Algorithm::from_alg_id(code) is Err ==> Algorithm::from_alg_id(code) == Err::<
            Algorithm,
            Error,
        >(Error::UnrecognizedIdentifier { code }),
{
}

} // verus!
