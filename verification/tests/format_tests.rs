use pulsar_vault::format::{
    parse_vault_header, CipherSuite, FormatError, KeyWrapMode, ParsedVaultHeader, Tpf2Header,
    Tpf3Header, Tpf3Kdf, HEADER_SIZE, MAGIC_BYTES, TPF3_FIXED_HEADER_SIZE, TPF3_MAGIC_BYTES,
};
use std::convert::TryFrom;

fn sample_tpf2() -> Tpf2Header {
    Tpf2Header::new_v2(5, 64, 1, 1, 1, [7u8; 32], [2u8; 12])
}

fn sample_tpf3_direct() -> Tpf3Header {
    Tpf3Header::new_v3(
        0,
        CipherSuite::Aes256Gcm,
        KeyWrapMode::Direct,
        64,
        1,
        1,
        [7u8; 32],
        vec![3u8; 12],
        vec![],
        vec![],
        vec![],
    )
    .unwrap()
}

#[test]
fn tpf2_new_v2_uses_canonical_ids() {
    let h = sample_tpf2();
    assert_eq!(h.magic, *b"TPF2");
    assert_eq!(h.magic, MAGIC_BYTES);
    assert_eq!(h.version, 2);
    assert_eq!(h.alg_id, 1);
    assert_eq!(h.kdf_id, 1);
    assert_eq!(h.reserved, [0, 0]);
    assert!(h.uses_v2_key_schedule());
    assert_eq!(h.algorithm_name(), "AES-256-GCM");
    assert_eq!(h.kdf_name(), "Argon2id");
}

#[test]
fn tpf2_as_bytes_layout() {
    let b = sample_tpf2().as_bytes();
    assert_eq!(b.len(), HEADER_SIZE);
    assert_eq!(&b[0..4], b"TPF2");
    assert_eq!(b[4], 2);
    assert_eq!(b[5], 5);
    assert_eq!(b[6], 1);
    assert_eq!(b[7], 1);
    assert_eq!(&b[8..12], &[64, 0, 0, 0]);
    assert_eq!(&b[12..14], &[1, 0]);
    assert_eq!(b[14], 1);
    assert_eq!(b[15], 1);
    assert_eq!(&b[16..18], &[0, 0]);
    assert_eq!(&b[18..50], &[7u8; 32]);
    assert_eq!(&b[50..62], &[2u8; 12]);
}

#[test]
fn tpf2_roundtrip_with_trailing_payload() {
    let h = Tpf2Header::new_v2(0, 262_144, 3, 4, 0, [9u8; 32], [1u8; 12]);
    let mut bytes = h.as_bytes();
    bytes.extend_from_slice(b"payload follows");
    let p = Tpf2Header::from_bytes(&bytes).unwrap();
    assert_eq!(p.as_bytes(), h.as_bytes());
    assert_eq!(p.kdf_m, 262_144);
    assert_eq!(p.kdf_t, 3);
    assert_eq!(p.kdf_p, 4);
    assert_eq!(p.os_salt, [9u8; 32]);
    assert_eq!(p.nonce, [1u8; 12]);
}

#[test]
fn tpf2_accepts_legacy_version_and_zero_ids() {
    let mut b = sample_tpf2().as_bytes();
    b[4] = 1;
    b[6] = 0;
    b[7] = 0;
    let h = Tpf2Header::from_bytes(&b).unwrap();
    assert_eq!(h.version, 1);
    assert!(!h.uses_v2_key_schedule());
    assert_eq!(h.algorithm_name(), "AES-256-GCM");
    assert_eq!(h.kdf_name(), "Argon2id");
    assert_eq!(h.as_bytes(), b);
}

#[test]
fn tpf2_unknown_names() {
    let mut h = sample_tpf2();
    h.alg_id = 9;
    h.kdf_id = 9;
    assert_eq!(h.algorithm_name(), "Unknown");
    assert_eq!(h.kdf_name(), "Unknown");
}

#[test]
fn tpf2_rejections_in_order() {
    let good = sample_tpf2().as_bytes();
    assert!(matches!(Tpf2Header::from_bytes(&good[..61]), Err(FormatError::HeaderTooShort)));
    let mut b = good.clone();
    b[3] = b'3';
    assert!(matches!(Tpf2Header::from_bytes(&b), Err(FormatError::InvalidMagic)));
    let mut b = good.clone();
    b[4] = 3;
    b[6] = 7;
    assert!(matches!(Tpf2Header::from_bytes(&b), Err(FormatError::UnsupportedVersion(3))));
    let mut b = good.clone();
    b[6] = 2;
    b[7] = 5;
    assert!(matches!(Tpf2Header::from_bytes(&b), Err(FormatError::UnsupportedAlgorithm(2))));
    let mut b = good.clone();
    b[7] = 5;
    assert!(matches!(Tpf2Header::from_bytes(&b), Err(FormatError::UnsupportedKdf(5))));
}

#[test]
fn enum_ids_names_and_parsing() {
    assert_eq!(CipherSuite::Aes256Gcm.id(), 1);
    assert_eq!(CipherSuite::XChaCha20Poly1305.id(), 2);
    assert_eq!(CipherSuite::Aes256Gcm.name(), "AES-256-GCM");
    assert_eq!(CipherSuite::XChaCha20Poly1305.name(), "XChaCha20-Poly1305");
    assert_eq!(CipherSuite::Aes256Gcm.nonce_len(), 12);
    assert_eq!(CipherSuite::XChaCha20Poly1305.nonce_len(), 24);
    assert_eq!(CipherSuite::try_from(2u8).unwrap(), CipherSuite::XChaCha20Poly1305);
    assert!(matches!(CipherSuite::try_from(0u8), Err(FormatError::UnsupportedCipherSuite(0))));
    assert_eq!(Tpf3Kdf::Argon2idHkdfSha256.id(), 1);
    assert_eq!(Tpf3Kdf::Argon2idHkdfSha256.name(), "Argon2id + HKDF-SHA256");
    assert!(matches!(Tpf3Kdf::try_from(2u8), Err(FormatError::UnsupportedTpf3Kdf(2))));
    assert_eq!(KeyWrapMode::Direct.id(), 0);
    assert_eq!(KeyWrapMode::TpmWrapped.id(), 1);
    assert_eq!(KeyWrapMode::MlKem768.id(), 2);
    assert_eq!(KeyWrapMode::Direct.name(), "None");
    assert_eq!(KeyWrapMode::TpmWrapped.name(), "TPM-wrapped key");
    assert_eq!(KeyWrapMode::MlKem768.name(), "ML-KEM-768 wrapped key");
    assert_eq!(KeyWrapMode::try_from(1u8).unwrap(), KeyWrapMode::TpmWrapped);
    assert!(matches!(KeyWrapMode::try_from(3u8), Err(FormatError::UnsupportedWrapMode(3))));
    for c in [CipherSuite::Aes256Gcm, CipherSuite::XChaCha20Poly1305] {
        assert_eq!(CipherSuite::try_from(c.id()).unwrap(), c);
    }
    for w in [KeyWrapMode::Direct, KeyWrapMode::TpmWrapped, KeyWrapMode::MlKem768] {
        assert_eq!(KeyWrapMode::try_from(w.id()).unwrap(), w);
    }
}

#[test]
fn tpf3_as_bytes_known_layout() {
    let h = sample_tpf3_direct();
    let b = h.as_bytes().unwrap();
    let expected: Vec<u8> = vec![
        0x54, 0x50, 0x46, 0x33, 0x01, 0x00, 0x00, 0x01, 0x01, 0x00, 0x0c, 0x00, 0x00, 0x00, 0x00,
        0x00, 0x00, 0x40, 0x00, 0x00, 0x00, 0x01, 0x00, 0x01,
    ];
    assert_eq!(&b[..24], &expected[..]);
    assert_eq!(&b[24..56], &[7u8; 32]);
    assert_eq!(&b[56..68], &[3u8; 12]);
    assert_eq!(b.len(), 68);
    assert_eq!(h.body_offset(), 68);
    assert_eq!(TPF3_FIXED_HEADER_SIZE, 56);
    assert_eq!(h.magic, TPF3_MAGIC_BYTES);
    assert_eq!(h.cipher_name(), "AES-256-GCM");
    assert_eq!(h.kdf_name(), "Argon2id + HKDF-SHA256");
    assert_eq!(h.wrap_mode_name(), "None");
}

#[test]
fn tpf3_roundtrip_with_blobs() {
    let h = Tpf3Header::new_v3(
        0x0102,
        CipherSuite::XChaCha20Poly1305,
        KeyWrapMode::TpmWrapped,
        1000,
        2,
        3,
        [5u8; 32],
        vec![4u8; 24],
        vec![1, 2, 3, 4, 5],
        vec![],
        vec![9, 9],
    )
    .unwrap();
    let mut bytes = h.as_bytes().unwrap();
    assert_eq!(bytes.len(), h.body_offset());
    assert_eq!(h.body_offset(), 56 + 24 + 5 + 0 + 2);
    bytes.extend_from_slice(b"ciphertext");
    let p = Tpf3Header::from_bytes(&bytes).unwrap();
    assert_eq!(p.flags, 0x0102);
    assert_eq!(p.cipher_suite, CipherSuite::XChaCha20Poly1305);
    assert_eq!(p.wrap_mode, KeyWrapMode::TpmWrapped);
    assert_eq!(p.kdf_m, 1000);
    assert_eq!(p.kdf_t, 2);
    assert_eq!(p.kdf_p, 3);
    assert_eq!(p.nonce, vec![4u8; 24]);
    assert_eq!(p.wrapped_key, vec![1, 2, 3, 4, 5]);
    assert!(p.kem_ciphertext.is_empty());
    assert_eq!(p.tpm_policy, vec![9, 9]);
    assert_eq!(p.as_bytes().unwrap(), h.as_bytes().unwrap());
}

#[test]
fn tpf3_validation_rules() {
    let nonce_err = Tpf3Header::new_v3(
        0,
        CipherSuite::XChaCha20Poly1305,
        KeyWrapMode::Direct,
        64,
        1,
        1,
        [0u8; 32],
        vec![0u8; 12],
        vec![],
        vec![],
        vec![],
    );
    match nonce_err {
        Err(FormatError::InvalidNonceLength { cipher, expected, actual }) => {
            assert_eq!(cipher, "XChaCha20-Poly1305");
            assert_eq!(expected, 24);
            assert_eq!(actual, 12);
        }
        _ => panic!("expected an invalid nonce length"),
    }
    let mk = |w: KeyWrapMode, wk: Vec<u8>, kem: Vec<u8>, pol: Vec<u8>| {
        Tpf3Header::new_v3(0, CipherSuite::Aes256Gcm, w, 64, 1, 1, [0u8; 32], vec![0u8; 12], wk, kem, pol)
    };
    assert!(matches!(mk(KeyWrapMode::Direct, vec![], vec![1], vec![]), Err(FormatError::InvalidTpf3BlobLengths)));
    assert!(matches!(mk(KeyWrapMode::Direct, vec![], vec![], vec![1]), Err(FormatError::InvalidTpf3BlobLengths)));
    assert!(mk(KeyWrapMode::Direct, vec![1], vec![], vec![]).is_ok());
    assert!(matches!(mk(KeyWrapMode::TpmWrapped, vec![], vec![], vec![]), Err(FormatError::InvalidTpf3BlobLengths)));
    assert!(matches!(mk(KeyWrapMode::TpmWrapped, vec![1], vec![1], vec![]), Err(FormatError::InvalidTpf3BlobLengths)));
    assert!(mk(KeyWrapMode::TpmWrapped, vec![1], vec![], vec![1]).is_ok());
    assert!(matches!(mk(KeyWrapMode::MlKem768, vec![1], vec![], vec![]), Err(FormatError::InvalidTpf3BlobLengths)));
    assert!(matches!(mk(KeyWrapMode::MlKem768, vec![], vec![1], vec![]), Err(FormatError::InvalidTpf3BlobLengths)));
    assert!(matches!(mk(KeyWrapMode::MlKem768, vec![1], vec![1], vec![1]), Err(FormatError::InvalidTpf3BlobLengths)));
    assert!(mk(KeyWrapMode::MlKem768, vec![1], vec![1], vec![]).is_ok());
}

#[test]
fn tpf3_length_overflow() {
    let mut h = sample_tpf3_direct();
    h.wrapped_key = vec![0u8; 70_000];
    assert!(matches!(h.as_bytes(), Err(FormatError::LengthOverflow)));
    let mut h = sample_tpf3_direct();
    h.nonce = vec![0u8; 13];
    assert!(matches!(h.as_bytes(), Err(FormatError::InvalidNonceLength { .. })));
}

#[test]
fn tpf3_rejections_in_order() {
    let good = sample_tpf3_direct().as_bytes().unwrap();
    assert!(matches!(Tpf3Header::from_bytes(&good[..55]), Err(FormatError::Tpf3HeaderTooShort)));
    let mut b = good.clone();
    b[0] = b'X';
    assert!(matches!(Tpf3Header::from_bytes(&b), Err(FormatError::InvalidMagic)));
    let mut b = good.clone();
    b[4] = 2;
    assert!(matches!(Tpf3Header::from_bytes(&b), Err(FormatError::UnsupportedVersion(2))));
    let mut b = good.clone();
    b[7] = 9;
    assert!(matches!(Tpf3Header::from_bytes(&b), Err(FormatError::UnsupportedCipherSuite(9))));
    let mut b = good.clone();
    b[8] = 0;
    assert!(matches!(Tpf3Header::from_bytes(&b), Err(FormatError::UnsupportedTpf3Kdf(0))));
    let mut b = good.clone();
    b[9] = 4;
    assert!(matches!(Tpf3Header::from_bytes(&b), Err(FormatError::UnsupportedWrapMode(4))));
    assert!(matches!(Tpf3Header::from_bytes(&good[..67]), Err(FormatError::InvalidTpf3BlobLengths)));
    let mut b = good.clone();
    b[11] = 1;
    b.push(0);
    // Direct mode may carry a wrapped key, but the nonce length no longer matches.
    b[10] = 11;
    assert!(matches!(Tpf3Header::from_bytes(&b), Err(FormatError::InvalidNonceLength { .. })));
}

#[test]
fn parse_vault_header_dispatches_on_magic() {
    let v2 = sample_tpf2().as_bytes();
    assert!(matches!(parse_vault_header(&v2), Ok(ParsedVaultHeader::Tpf2(_))));
    let v3 = sample_tpf3_direct().as_bytes().unwrap();
    match parse_vault_header(&v3) {
        Ok(ParsedVaultHeader::Tpf3(h)) => assert_eq!(h.body_offset(), 68),
        _ => panic!("expected a TPF3 header"),
    }
    assert!(matches!(parse_vault_header(b"TPF"), Err(FormatError::HeaderTooShort)));
    assert!(matches!(parse_vault_header(b"ABCDEFGH"), Err(FormatError::InvalidMagic)));
    assert!(matches!(parse_vault_header(b"TPF2short"), Err(FormatError::HeaderTooShort)));
    assert!(matches!(parse_vault_header(b"TPF3short"), Err(FormatError::Tpf3HeaderTooShort)));
}
