use pulsar_vault::crypto::{derive_vault_key, encrypt_payload, xchacha_keystream_overrun, CryptoError};
use pulsar_vault::format::{
    parse_vault_header, CipherSuite, FormatError, KeyWrapMode, ParsedVaultHeader, Tpf2Header, Tpf3Header,
};
use pulsar_vault::tpm::{decode_tpm_policy, encode_tpm_policy, TpmKeyScope, Win32Error};
use pulsar_vault::vault::{
    open_tpf2_vault, open_tpf3_vault_direct, open_tpf3_vault_tpm, open_tpf3_vault_with_key,
    seal_tpf2_vault, seal_tpf3_vault_direct, seal_tpf3_vault_tpm, seal_tpf3_vault_with_key,
    WrappedVaultError,
};

#[test]
fn small_cost_tpf2_vault_opens() {
    let h = Tpf2Header::new_v2(0, 64, 1, 1, 0, [7u8; 32], [2u8; 12]);
    let k = derive_vault_key("correct horse", None, &h).unwrap();
    let mut vault = h.as_bytes();
    vault.extend(encrypt_payload(&k, &h, b"hello vault").unwrap());
    let header = match parse_vault_header(&vault).unwrap() {
        ParsedVaultHeader::Tpf2(h) => h,
        _ => panic!("expected TPF2"),
    };
    assert_eq!(open_tpf2_vault("correct horse", None, &header, &vault).unwrap(), b"hello vault".to_vec());
    assert!(matches!(open_tpf2_vault("wrong", None, &header, &vault), Err(CryptoError::AeadError)));
    assert!(matches!(
        open_tpf2_vault("correct horse", Some([1u8; 32]), &header, &vault),
        Err(CryptoError::AeadError)
    ));
}

#[test]
fn sealed_tpf2_vault_opens_with_the_same_secrets() {
    let v = seal_tpf2_vault("pulsar", Some([4u8; 32]), 64, 2, 1, [5u8; 32], [6u8; 12], b"secret data").unwrap();
    assert_eq!(v.len(), 62 + 11 + 16);
    let header = match parse_vault_header(&v).unwrap() {
        ParsedVaultHeader::Tpf2(h) => h,
        _ => panic!("expected TPF2"),
    };
    assert_eq!(header.kdf_m, 64);
    assert_eq!(header.kdf_t, 2);
    assert_eq!(header.kdf_p, 1);
    assert_eq!(header.version, 2);
    assert_eq!(open_tpf2_vault("pulsar", Some([4u8; 32]), &header, &v).unwrap(), b"secret data".to_vec());
}

#[test]
fn sealed_tpf3_direct_vault_opens_with_the_same_secrets() {
    let v = seal_tpf3_vault_direct(
        "pulsar",
        None,
        CipherSuite::XChaCha20Poly1305,
        64,
        1,
        1,
        [5u8; 32],
        vec![8u8; 24],
        b"modern secret",
    )
    .unwrap();
    let header = match parse_vault_header(&v).unwrap() {
        ParsedVaultHeader::Tpf3(h) => h,
        _ => panic!("expected TPF3"),
    };
    assert_eq!(header.wrap_mode, KeyWrapMode::Direct);
    assert_eq!(header.body_offset(), 56 + 24);
    assert_eq!(v.len(), 56 + 24 + 13 + 16);
    assert_eq!(open_tpf3_vault_direct("pulsar", None, &header, &v).unwrap(), b"modern secret".to_vec());
}

#[test]
fn tpf3_direct_vault_rejects_a_wrong_nonce_length() {
    let r = seal_tpf3_vault_direct("pulsar", None, CipherSuite::Aes256Gcm, 64, 1, 1, [5u8; 32], vec![8u8; 24], b"x");
    assert!(matches!(r, Err(CryptoError::FormatError(_))));
}

#[test]
fn tpf3_vault_with_a_known_key_roundtrips() {
    let h = Tpf3Header::new_v3(
        0,
        CipherSuite::Aes256Gcm,
        KeyWrapMode::TpmWrapped,
        64,
        1,
        1,
        [1u8; 32],
        vec![2u8; 12],
        vec![3u8; 40],
        vec![],
        vec![4u8; 10],
    )
    .unwrap();
    let key = [0x42u8; 32];
    let v = seal_tpf3_vault_with_key(&key, &h, b"wrapped").unwrap();
    assert_eq!(v.len(), h.body_offset() + 7 + 16);
    let header = match parse_vault_header(&v).unwrap() {
        ParsedVaultHeader::Tpf3(h) => h,
        _ => panic!("expected TPF3"),
    };
    assert_eq!(header.wrapped_key, vec![3u8; 40]);
    assert_eq!(open_tpf3_vault_with_key(&key, &header, &v).unwrap(), b"wrapped".to_vec());
    let other = [0x43u8; 32];
    assert!(matches!(open_tpf3_vault_with_key(&other, &header, &v), Err(CryptoError::AeadError)));
}

#[test]
fn tpm_wrapped_vault_records_the_policy_and_opens_with_the_unwrapped_key() {
    let key = [0x24u8; 32];
    let v = seal_tpf3_vault_tpm(
        "  TPV-Key ",
        TpmKeyScope::LocalMachine,
        CipherSuite::XChaCha20Poly1305,
        64,
        1,
        1,
        [9u8; 32],
        vec![3u8; 24],
        vec![7u8; 256],
        &key,
        b"tpm secret",
    )
    .unwrap();
    let header = match parse_vault_header(&v).unwrap() {
        ParsedVaultHeader::Tpf3(h) => h,
        _ => panic!("expected TPF3"),
    };
    assert_eq!(header.wrap_mode, KeyWrapMode::TpmWrapped);
    assert_eq!(header.wrapped_key, vec![7u8; 256]);
    assert!(header.kem_ciphertext.is_empty());
    assert_eq!(header.tpm_policy, encode_tpm_policy("  TPV-Key ", TpmKeyScope::LocalMachine).unwrap());
    assert_eq!(v.len(), header.body_offset() + 10 + 16);
    let (alias, scope) = decode_tpm_policy(&header.tpm_policy).unwrap();
    assert_eq!(alias, "TPV-Key");
    assert_eq!(scope, TpmKeyScope::LocalMachine);
    assert_eq!(open_tpf3_vault_tpm(&key, &header, &v).unwrap(), b"tpm secret".to_vec());
    assert!(matches!(open_tpf3_vault_tpm(&key[..31], &header, &v), Err(CryptoError::AeadError)));
    assert!(matches!(open_tpf3_vault_tpm(&[0x25u8; 32], &header, &v), Err(CryptoError::AeadError)));
}

#[test]
fn tpm_wrapped_vault_errors() {
    let key = [0x24u8; 32];
    let r = seal_tpf3_vault_tpm(
        "   ",
        TpmKeyScope::CurrentUser,
        CipherSuite::Aes256Gcm,
        64,
        1,
        1,
        [9u8; 32],
        vec![3u8; 12],
        vec![7u8; 8],
        &key,
        b"x",
    );
    assert!(matches!(r, Err(WrappedVaultError::Policy(Win32Error::InvalidTpmKeyAlias))));
    let r = seal_tpf3_vault_tpm(
        "alias",
        TpmKeyScope::CurrentUser,
        CipherSuite::Aes256Gcm,
        64,
        1,
        1,
        [9u8; 32],
        vec![3u8; 12],
        vec![],
        &key,
        b"x",
    );
    assert!(matches!(r, Err(WrappedVaultError::Vault(CryptoError::FormatError(FormatError::InvalidTpf3BlobLengths)))));
}

#[test]
fn xchacha_keystream_overrun_band() {
    let lo = 64u64 * (u32::MAX as u64 - 1);
    let hi = 64u64 * u32::MAX as u64;
    assert!(!xchacha_keystream_overrun(0));
    assert!(!xchacha_keystream_overrun(lo as usize));
    assert!(xchacha_keystream_overrun(lo as usize + 1));
    assert!(xchacha_keystream_overrun(hi as usize - 1));
    assert!(!xchacha_keystream_overrun(hi as usize));
}
