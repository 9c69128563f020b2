//! The algorithm codec, run on concrete values.
use std::collections::HashMap;
use std::collections::HashSet;
use std::convert::TryFrom;
use std::convert::TryInto;

use tss_esapi::constants::algorithm::Algorithm;
use tss_esapi::constants::tss::TPM2_ALG_ID;
use tss_esapi::error::Error;

/// Every algorithm beside the code that the TCG registry publishes for it.
fn published_registry() -> Vec<(Algorithm, u16)> {
    vec![
            (Algorithm::Error, 0x0000),
            (Algorithm::Rsa, 0x0001),
            (Algorithm::Tdes, 0x0003),
            (Algorithm::Sha1, 0x0004),
            (Algorithm::Hmac, 0x0005),
            (Algorithm::Aes, 0x0006),
            (Algorithm::Mgf1, 0x0007),
            (Algorithm::KeyedHash, 0x0008),
            (Algorithm::Xor, 0x000A),
            (Algorithm::Sha256, 0x000B),
            (Algorithm::Sha384, 0x000C),
            (Algorithm::Sha512, 0x000D),
            (Algorithm::Null, 0x0010),
            (Algorithm::Sm3_256, 0x0012),
            (Algorithm::Sm4, 0x0013),
            (Algorithm::RsaSsa, 0x0014),
            (Algorithm::RsaEs, 0x0015),
            (Algorithm::RsaPss, 0x0016),
            (Algorithm::Oaep, 0x0017),
            (Algorithm::EcDsa, 0x0018),
            (Algorithm::EcDh, 0x0019),
            (Algorithm::EcDaa, 0x001A),
            (Algorithm::Sm2, 0x001B),
            (Algorithm::EcSchnorr, 0x001C),
            (Algorithm::EcMqv, 0x001D),
            (Algorithm::Kdf1Sp800_56a, 0x0020),
            (Algorithm::Kdf2, 0x0021),
            (Algorithm::Kdf1Sp800_108, 0x0022),
            (Algorithm::Ecc, 0x0023),
            (Algorithm::SymCipher, 0x0025),
            (Algorithm::Camellia, 0x0026),
            (Algorithm::Cmac, 0x003F),
            (Algorithm::Ctr, 0x0040),
            (Algorithm::Sha3_256, 0x0027),
            (Algorithm::Sha3_384, 0x0028),
            (Algorithm::Sha3_512, 0x0029),
            (Algorithm::Ofb, 0x0041),
            (Algorithm::Cbc, 0x0042),
            (Algorithm::Cfb, 0x0043),
            (Algorithm::Ecb, 0x0044),
    ]
}

/// The row of `published_registry` that holds `algorithm`. The match has no
/// catch-all arm: an algorithm that joins the enumeration without a row
/// here stops these tests from building.
fn row_of(algorithm: Algorithm) -> usize {
    match algorithm {
        Algorithm::Error => 0,
        Algorithm::Rsa => 1,
        Algorithm::Tdes => 2,
        Algorithm::Sha1 => 3,
        Algorithm::Hmac => 4,
        Algorithm::Aes => 5,
        Algorithm::Mgf1 => 6,
        Algorithm::KeyedHash => 7,
        Algorithm::Xor => 8,
        Algorithm::Sha256 => 9,
        Algorithm::Sha384 => 10,
        Algorithm::Sha512 => 11,
        Algorithm::Null => 12,
        Algorithm::Sm3_256 => 13,
        Algorithm::Sm4 => 14,
        Algorithm::RsaSsa => 15,
        Algorithm::RsaEs => 16,
        Algorithm::RsaPss => 17,
        Algorithm::Oaep => 18,
        Algorithm::EcDsa => 19,
        Algorithm::EcDh => 20,
        Algorithm::EcDaa => 21,
        Algorithm::Sm2 => 22,
        Algorithm::EcSchnorr => 23,
        Algorithm::EcMqv => 24,
        Algorithm::Kdf1Sp800_56a => 25,
        Algorithm::Kdf2 => 26,
        Algorithm::Kdf1Sp800_108 => 27,
        Algorithm::Ecc => 28,
        Algorithm::SymCipher => 29,
        Algorithm::Camellia => 30,
        Algorithm::Cmac => 31,
        Algorithm::Ctr => 32,
        Algorithm::Sha3_256 => 33,
        Algorithm::Sha3_384 => 34,
        Algorithm::Sha3_512 => 35,
        Algorithm::Ofb => 36,
        Algorithm::Cbc => 37,
        Algorithm::Cfb => 38,
        Algorithm::Ecb => 39,
    }
}

/// The first row of `rows` with the code `code`, as a linear search finds it.
fn search_by_code(rows: &[(Algorithm, u16)], code: u16) -> Result<Algorithm, Error> {
    for (algorithm, row_code) in rows {
        if *row_code == code {
            return Ok(*algorithm);
        }
    }
    Err(Error::UnrecognizedIdentifier { code })
}

/// The first row of `rows` with the algorithm `algorithm`.
fn search_by_algorithm(rows: &[(Algorithm, u16)], algorithm: Algorithm) -> Option<u16> {
    for (row_algorithm, code) in rows {
        if *row_algorithm == algorithm {
            return Some(*code);
        }
    }
    None
}

#[test]
fn sha256_is_code_0x000b() {
    assert_eq!(TPM2_ALG_ID::from(Algorithm::Sha256), 0x000B);
    assert_eq!(Algorithm::try_from(0x000B), Ok(Algorithm::Sha256));
}

#[test]
fn rsa_is_code_0x0001() {
    assert_eq!(TPM2_ALG_ID::from(Algorithm::Rsa), 0x0001);
    assert_eq!(Algorithm::try_from(0x0001), Ok(Algorithm::Rsa));
}

#[test]
fn code_0x9999_is_unrecognized() {
    assert_eq!(
        Algorithm::try_from(0x9999),
        Err(Error::UnrecognizedIdentifier { code: 0x9999 })
    );
}

#[test]
fn the_published_registry_lists_every_algorithm() {
    let registry = published_registry();
    for (row, (algorithm, _)) in registry.iter().enumerate() {
        assert_eq!(row_of(*algorithm), row);
    }
}

#[test]
fn the_registry_has_forty_algorithms() {
    let registry = published_registry();
    assert_eq!(registry.len(), 40);
    let algorithms: HashSet<Algorithm> = registry.iter().map(|row| row.0).collect();
    assert_eq!(algorithms.len(), 40);
}

#[test]
fn every_algorithm_encodes_to_its_published_code() {
    for (algorithm, code) in published_registry() {
        assert_eq!(TPM2_ALG_ID::from(algorithm), code, "{:?}", algorithm);
    }
}

#[test]
fn every_published_code_decodes_to_its_algorithm() {
    for (algorithm, code) in published_registry() {
        assert_eq!(Algorithm::try_from(code), Ok(algorithm), "{:#06x}", code);
    }
}

#[test]
fn decoding_undoes_encoding() {
    for (algorithm, _) in published_registry() {
        let code: u16 = TPM2_ALG_ID::from(algorithm);
        assert_eq!(Algorithm::try_from(code), Ok(algorithm));
    }
}

#[test]
fn encoding_undoes_decoding() {
    for code in 0..=u16::MAX {
        if let Ok(algorithm) = Algorithm::try_from(code) {
            assert_eq!(TPM2_ALG_ID::from(algorithm), code);
        }
    }
}

#[test]
fn distinct_algorithms_have_distinct_codes() {
    let registry = published_registry();
    for (first, _) in &registry {
        for (second, _) in &registry {
            if first != second {
                assert_ne!(
                    TPM2_ALG_ID::from(*first),
                    TPM2_ALG_ID::from(*second),
                    "{:?} and {:?}",
                    first,
                    second
                );
            }
        }
    }
    let codes: HashSet<u16> = registry.iter().map(|row| TPM2_ALG_ID::from(row.0)).collect();
    assert_eq!(codes.len(), registry.len());
}

#[test]
fn codes_outside_the_registry_are_rejected() {
    let unassigned: [u16; 16] = [
        0x0002, 0x0009, 0x000E, 0x000F, 0x0011, 0x001E, 0x001F, 0x0024, 0x002A, 0x003E, 0x0045,
        0x00FF, 0x0100, 0x8000, 0x9999, 0xFFFF,
    ];
    for code in unassigned {
        assert_eq!(
            Algorithm::try_from(code),
            Err(Error::UnrecognizedIdentifier { code }),
            "{:#06x}",
            code
        );
    }
}

#[test]
fn code_0xffff_is_unrecognized() {
    assert_eq!(
        Algorithm::try_from(0xFFFF),
        Err(Error::UnrecognizedIdentifier { code: 0xFFFF })
    );
}

#[test]
fn code_zero_is_the_error_algorithm() {
    assert_eq!(Algorithm::try_from(0x0000), Ok(Algorithm::Error));
    assert_eq!(TPM2_ALG_ID::from(Algorithm::Error), 0x0000);
}

#[test]
fn exactly_the_published_codes_decode() {
    let registry = published_registry();
    let mut recognized: usize = 0;
    for code in 0..=u16::MAX {
        let expected = search_by_code(&registry, code);
        assert_eq!(Algorithm::try_from(code), expected, "{:#06x}", code);
        if expected.is_ok() {
            recognized += 1;
        }
    }
    assert_eq!(recognized, 40);
}

#[test]
fn a_rejected_code_comes_back_unchanged() {
    for code in 0..=u16::MAX {
        if let Err(error) = Algorithm::try_from(code) {
            let Error::UnrecognizedIdentifier { code: carried } = error;
            assert_eq!(carried, code);
        }
    }
}

#[test]
fn decoding_is_repeatable() {
    for code in 0..=u16::MAX {
        assert_eq!(Algorithm::try_from(code), Algorithm::try_from(code));
    }
}

#[test]
fn the_order_of_the_rows_changes_no_result() {
    let registry = published_registry();
    let mut reversed = registry.clone();
    reversed.reverse();
    let mut rotated = registry.clone();
    rotated.rotate_left(17);
    let mut interleaved: Vec<(Algorithm, u16)> = Vec::new();
    for i in 0..20 {
        interleaved.push(registry[39 - i]);
        interleaved.push(registry[i]);
    }
    let mut by_name = registry.clone();
    by_name.sort_by_key(|row| format!("{:?}", row.0));
    for rows in [registry, reversed, rotated, interleaved, by_name] {
        assert_eq!(rows.len(), 40);
        for code in 0..=u16::MAX {
            assert_eq!(search_by_code(&rows, code), Algorithm::try_from(code));
        }
        for (algorithm, _) in &rows {
            assert_eq!(
                search_by_algorithm(&rows, *algorithm),
                Some(TPM2_ALG_ID::from(*algorithm))
            );
        }
    }
}

#[test]
fn into_and_try_into_agree_with_from_and_try_from() {
    let code: u16 = Algorithm::Cmac.into();
    assert_eq!(code, 0x003F);
    let decoded: Result<Algorithm, Error> = 0x003Fu16.try_into();
    assert_eq!(decoded, Ok(Algorithm::Cmac));
    let rejected: Result<Algorithm, Error> = 0x003Eu16.try_into();
    assert_eq!(rejected, Err(Error::UnrecognizedIdentifier { code: 0x003E }));
}

#[test]
fn neighbours_of_a_gap_are_not_confused() {
    // 0x0009 is unassigned between KeyedHash (0x0008) and Xor (0x000A).
    assert_eq!(Algorithm::try_from(0x0008), Ok(Algorithm::KeyedHash));
    assert_eq!(
        Algorithm::try_from(0x0009),
        Err(Error::UnrecognizedIdentifier { code: 0x0009 })
    );
    assert_eq!(Algorithm::try_from(0x000A), Ok(Algorithm::Xor));
    // The block of symmetric modes starts at 0x003F and ends at 0x0044.
    assert_eq!(
        Algorithm::try_from(0x003E),
        Err(Error::UnrecognizedIdentifier { code: 0x003E })
    );
    assert_eq!(Algorithm::try_from(0x003F), Ok(Algorithm::Cmac));
    assert_eq!(Algorithm::try_from(0x0044), Ok(Algorithm::Ecb));
    assert_eq!(
        Algorithm::try_from(0x0045),
        Err(Error::UnrecognizedIdentifier { code: 0x0045 })
    );
}

#[test]
fn a_code_is_not_truncated_or_wrapped() {
    // The low byte of each of these is an assigned code.
    for code in [0x0101u16, 0x010B, 0x0B00, 0xFF01, 0x8006] {
        assert_eq!(
            Algorithm::try_from(code),
            Err(Error::UnrecognizedIdentifier { code })
        );
    }
}

#[test]
fn algorithms_are_plain_values() {
    let original = Algorithm::EcDsa;
    let copy = original;
    assert_eq!(original, copy);
    assert_eq!(original.clone(), Algorithm::EcDsa);
    assert_ne!(Algorithm::EcDsa, Algorithm::EcDh);
    assert_eq!(format!("{:?}", Algorithm::Kdf1Sp800_108), "Kdf1Sp800_108");
}

#[test]
fn algorithms_serve_as_map_keys() {
    let mut names: HashMap<Algorithm, u16> = HashMap::new();
    for (algorithm, code) in published_registry() {
        assert_eq!(names.insert(algorithm, code), None);
    }
    assert_eq!(names.len(), 40);
    assert_eq!(names.get(&Algorithm::Sha3_256), Some(&0x0027));
    assert_eq!(names.get(&Algorithm::Sm3_256), Some(&0x0012));
}

#[test]
fn errors_compare_by_the_code_they_carry() {
    let error = Error::UnrecognizedIdentifier { code: 0x9999 };
    assert_eq!(error, Error::UnrecognizedIdentifier { code: 0x9999 });
    assert_ne!(error, Error::UnrecognizedIdentifier { code: 0x999A });
    let copy = error;
    assert_eq!(copy, error);
    assert_eq!(format!("{:?}", error), "UnrecognizedIdentifier { code: 39321 }");
}
