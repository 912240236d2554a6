use pulsar_vault::format::{CipherSuite, KeyWrapMode};
use pulsar_vault::text::{
    cipher_suite_from_choice, is_affirmative, is_yes_answer, wrap_mode_from_choice,
};
use pulsar_vault::tpm::{
    check_tpm_alias, decode_tpm_policy, encode_tpm_policy, ncrypt_input_len, resolve_tpm_alias,
    to_utf16_null, tpm_scope_from_choice, TpmKeyScope, Win32Error,
};

#[test]
fn policy_encoding_layout() {
    let p = encode_tpm_policy("TPV-Key", TpmKeyScope::LocalMachine).unwrap();
    let mut expected = b"TPM1".to_vec();
    expected.push(1);
    expected.extend_from_slice(&[7, 0]);
    expected.extend_from_slice(b"TPV-Key");
    assert_eq!(p, expected);
}

#[test]
fn policy_roundtrip_trims_the_alias() {
    let p = encode_tpm_policy("  héllo key ", TpmKeyScope::CurrentUser).unwrap();
    let (alias, scope) = decode_tpm_policy(&p).unwrap();
    assert_eq!(alias, "héllo key");
    assert_eq!(scope, TpmKeyScope::CurrentUser);
}

#[test]
fn policy_encoding_errors() {
    assert!(matches!(encode_tpm_policy(" \t\n", TpmKeyScope::CurrentUser), Err(Win32Error::InvalidTpmKeyAlias)));
    let long = "k".repeat(70_000);
    assert!(matches!(encode_tpm_policy(&long, TpmKeyScope::CurrentUser), Err(Win32Error::InputTooLarge)));
}

#[test]
fn policy_decoding_errors() {
    assert!(matches!(decode_tpm_policy(b"TPM1\x00\x00"), Err(Win32Error::TpmPolicyTooShort)));
    assert!(matches!(decode_tpm_policy(b"TPM2\x00\x01\x00a"), Err(Win32Error::InvalidTpmPolicyEncoding)));
    assert!(matches!(decode_tpm_policy(b"TPM1\x02\x01\x00a"), Err(Win32Error::InvalidTpmPolicyEncoding)));
    assert!(matches!(decode_tpm_policy(b"TPM1\x00\x02\x00a"), Err(Win32Error::InvalidTpmPolicyEncoding)));
    assert!(matches!(decode_tpm_policy(b"TPM1\x00\x01\x00\xff"), Err(Win32Error::InvalidTpmPolicyEncoding)));
    assert!(matches!(decode_tpm_policy(b"TPM1\x00\x02\x00  "), Err(Win32Error::InvalidTpmKeyAlias)));
    let (alias, scope) = decode_tpm_policy(b"TPM1\x01\x01\x00a").unwrap();
    assert_eq!(alias, "a");
    assert_eq!(scope, TpmKeyScope::LocalMachine);
}

#[test]
fn scopes() {
    assert_eq!(TpmKeyScope::CurrentUser.id(), 0);
    assert_eq!(TpmKeyScope::LocalMachine.id(), 1);
    assert_eq!(TpmKeyScope::CurrentUser.flags(), 0);
    assert_eq!(TpmKeyScope::LocalMachine.flags(), 0x20);
    assert_eq!(TpmKeyScope::CurrentUser.label(), "CurrentUser");
    assert_eq!(TpmKeyScope::LocalMachine.label(), "LocalMachine");
    assert_eq!(TpmKeyScope::from_id(1).unwrap(), TpmKeyScope::LocalMachine);
    assert!(matches!(TpmKeyScope::from_id(2), Err(Win32Error::InvalidTpmPolicyEncoding)));
    assert_eq!(tpm_scope_from_choice("1"), Some(TpmKeyScope::CurrentUser));
    assert_eq!(tpm_scope_from_choice("2"), Some(TpmKeyScope::LocalMachine));
    assert_eq!(tpm_scope_from_choice("3"), None);
}

#[test]
fn alias_checks() {
    assert!(check_tpm_alias("key").is_ok());
    assert!(matches!(check_tpm_alias("  "), Err(Win32Error::InvalidTpmKeyAlias)));
    assert!(matches!(check_tpm_alias(""), Err(Win32Error::InvalidTpmKeyAlias)));
    assert_eq!(resolve_tpm_alias("   ".to_string(), "TPV-TPM-ContentKey"), "TPV-TPM-ContentKey");
    assert_eq!(resolve_tpm_alias("mine".to_string(), "TPV-TPM-ContentKey"), "mine");
    assert_eq!(ncrypt_input_len(32).unwrap(), 32);
    assert!(matches!(ncrypt_input_len(usize::MAX), Err(Win32Error::InputTooLarge)));
}

#[test]
fn utf16_with_terminator() {
    assert_eq!(to_utf16_null("RSA"), vec![0x52, 0x53, 0x41, 0]);
    assert_eq!(to_utf16_null(""), vec![0]);
    let expected: Vec<u16> = "é😀".encode_utf16().chain(std::iter::once(0)).collect();
    assert_eq!(to_utf16_null("é😀"), expected);
    assert_eq!(to_utf16_null("😀"), vec![0xd83d, 0xde00, 0]);
}

#[test]
fn answers_and_choices() {
    assert!(is_yes_answer("y"));
    assert!(is_yes_answer("YES"));
    assert!(is_yes_answer("Yes"));
    assert!(!is_yes_answer("yeah"));
    assert!(!is_yes_answer("n"));
    assert!(!is_yes_answer(""));
    assert!(is_affirmative("y"));
    assert!(is_affirmative("yes"));
    assert!(!is_affirmative("Y"));
    assert!(!is_affirmative("yes "));
    assert_eq!(cipher_suite_from_choice("1"), Some(CipherSuite::Aes256Gcm));
    assert_eq!(cipher_suite_from_choice("2"), Some(CipherSuite::XChaCha20Poly1305));
    assert_eq!(cipher_suite_from_choice("x"), None);
    assert_eq!(wrap_mode_from_choice("1"), Some(KeyWrapMode::Direct));
    assert_eq!(wrap_mode_from_choice("2"), Some(KeyWrapMode::TpmWrapped));
    assert_eq!(wrap_mode_from_choice("3"), Some(KeyWrapMode::MlKem768));
    assert_eq!(wrap_mode_from_choice("4"), None);
}
