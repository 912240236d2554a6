use pulsar_vault::crypto::{
    decrypt_payload, decrypt_tpf3_payload, derive_master_key, derive_tpf3_content_key,
    derive_vault_key, encrypt_payload, encrypt_tpf3_payload, generate_tpf3_nonce,
    generate_tpf3_random_content_key, CryptoError,
    DatasetHasher,
};
use pulsar_vault::format::{CipherSuite, FormatError, KeyWrapMode, Tpf2Header, Tpf3Header};

fn hex(s: &str) -> Vec<u8> {
    (0..s.len()).step_by(2).map(|i| u8::from_str_radix(&s[i..i + 2], 16).unwrap()).collect()
}

fn small_tpf2() -> Tpf2Header {
    Tpf2Header::new_v2(0, 64, 1, 1, 0, [7u8; 32], [2u8; 12])
}

fn small_tpf3(cs: CipherSuite) -> Tpf3Header {
    Tpf3Header::new_v3(
        0,
        cs,
        KeyWrapMode::Direct,
        64,
        1,
        1,
        [7u8; 32],
        vec![3u8; cs.nonce_len()],
        vec![],
        vec![],
        vec![],
    )
    .unwrap()
}

#[test]
fn argon2id_root_key_known_answer() {
    let k = derive_master_key("correct horse", None, &[7u8; 32], 64, 1, 1).unwrap();
    assert_eq!(k, hex("00e33a23cbce078f96bd74ca3ebd3237a801c0ce66c63c214519750f622f92d2"));
}

#[test]
fn dataset_hash_is_appended_to_the_passphrase() {
    let k = derive_master_key("correct horse", Some([9u8; 32]), &[7u8; 32], 64, 1, 1).unwrap();
    assert_eq!(k, hex("4fa0c3ec39dcfc162427a9afdbdbed164279e1c29e3c675588c4096cb5e4e9b9"));
}

#[test]
fn argon2_rejects_bad_costs() {
    assert!(matches!(derive_master_key("pw", None, &[7u8; 32], 4, 1, 1), Err(CryptoError::KdfError)));
    assert!(matches!(derive_master_key("pw", None, &[7u8; 32], 64, 0, 1), Err(CryptoError::KdfError)));
    assert!(matches!(derive_master_key("pw", None, &[7u8; 32], 64, 1, 0), Err(CryptoError::KdfError)));
    assert!(matches!(derive_master_key("pw", None, &[7u8; 32], 15, 1, 2), Err(CryptoError::KdfError)));
}

#[test]
fn v2_vault_key_known_answer() {
    let k = derive_vault_key("correct horse", None, &small_tpf2()).unwrap();
    assert_eq!(k, hex("9835d4dd3df1561c30466db230e41d0184ccde426be82a0f77e9598bb695c56e"));
}

#[test]
fn v1_vault_key_is_the_argon2_output() {
    let mut h = small_tpf2();
    h.version = 1;
    let k = derive_vault_key("correct horse", None, &h).unwrap();
    assert_eq!(k, hex("00e33a23cbce078f96bd74ca3ebd3237a801c0ce66c63c214519750f622f92d2"));
}

#[test]
fn tpf2_payload_known_answer_and_roundtrip() {
    let h = small_tpf2();
    let k = derive_vault_key("correct horse", None, &h).unwrap();
    let c = encrypt_payload(&k, &h, b"hello vault").unwrap();
    assert_eq!(c, hex("eea31563b131a363528910b854489c7fc3edf616677f9779b7b954"));
    assert_eq!(c.len(), b"hello vault".len() + 16);
    assert_eq!(decrypt_payload(&k, &h, &c).unwrap(), b"hello vault".to_vec());
}

#[test]
fn tpf2_tampering_fails_closed() {
    let h = small_tpf2();
    let k = derive_vault_key("correct horse", None, &h).unwrap();
    let mut c = encrypt_payload(&k, &h, b"hello vault").unwrap();
    c[0] ^= 1;
    assert!(matches!(decrypt_payload(&k, &h, &c), Err(CryptoError::AeadError)));
    let c = encrypt_payload(&k, &h, b"hello vault").unwrap();
    let mut h2 = h.clone();
    h2.flags = 1;
    assert!(matches!(decrypt_payload(&k, &h2, &c), Err(CryptoError::AeadError)));
    let wrong = derive_vault_key("wrong horse", None, &h).unwrap();
    assert!(matches!(decrypt_payload(&wrong, &h, &c), Err(CryptoError::AeadError)));
    assert!(matches!(decrypt_payload(&k, &h, &c[..10]), Err(CryptoError::AeadError)));
}

#[test]
fn tpf3_content_keys_are_domain_separated() {
    let ka = derive_tpf3_content_key("correct horse", None, &small_tpf3(CipherSuite::Aes256Gcm)).unwrap();
    assert_eq!(ka, hex("a8d5ef1780d58bdd6a0f825254ccbe95f751da13cceda9971d6d2824dd983f2d"));
    let kx = derive_tpf3_content_key("correct horse", None, &small_tpf3(CipherSuite::XChaCha20Poly1305))
        .unwrap();
    assert_eq!(kx, hex("740a5092431b3064d2cfe0689a6aea649724edf720f5d3dbf358e39ed66ea016"));
}

#[test]
fn tpf3_aes_payload_known_answer() {
    let h = small_tpf3(CipherSuite::Aes256Gcm);
    let k = derive_tpf3_content_key("correct horse", None, &h).unwrap();
    let c = encrypt_tpf3_payload(&k, &h, b"tpf3 payload").unwrap();
    assert_eq!(c, hex("b5f1d42e606f19d3648b584973a33d1e071a43269bbb60fb68c89e5b"));
    assert_eq!(decrypt_tpf3_payload(&k, &h, &c).unwrap(), b"tpf3 payload".to_vec());
}

#[test]
fn tpf3_xchacha_payload_roundtrip() {
    let h = small_tpf3(CipherSuite::XChaCha20Poly1305);
    let k = derive_tpf3_content_key("correct horse", None, &h).unwrap();
    let c = encrypt_tpf3_payload(&k, &h, b"tpf3 payload").unwrap();
    assert_eq!(c.len(), b"tpf3 payload".len() + 16);
    assert_ne!(&c[..12], b"tpf3 payload");
    assert_eq!(decrypt_tpf3_payload(&k, &h, &c).unwrap(), b"tpf3 payload".to_vec());
    let mut bad = c.clone();
    bad[3] ^= 0x80;
    assert!(matches!(decrypt_tpf3_payload(&k, &h, &bad), Err(CryptoError::AeadError)));
}

#[test]
fn tpf3_invalid_header_is_a_format_error() {
    let mut h = small_tpf3(CipherSuite::Aes256Gcm);
    h.nonce = vec![0u8; 24];
    let k = vec![0u8; 32];
    assert!(matches!(
        encrypt_tpf3_payload(&k, &h, b"x"),
        Err(CryptoError::FormatError(FormatError::InvalidNonceLength { .. }))
    ));
    assert!(matches!(
        decrypt_tpf3_payload(&k, &h, b"x"),
        Err(CryptoError::FormatError(FormatError::InvalidNonceLength { .. }))
    ));
}

#[test]
fn nonces_have_the_suite_length() {
    assert_eq!(generate_tpf3_nonce(CipherSuite::Aes256Gcm).len(), 12);
    assert_eq!(generate_tpf3_nonce(CipherSuite::XChaCha20Poly1305).len(), 24);
    assert_ne!(generate_tpf3_nonce(CipherSuite::XChaCha20Poly1305), vec![0u8; 24]);
}

#[test]
fn blake3_known_answers() {
    let empty = DatasetHasher::new();
    assert_eq!(
        empty.finalize().to_vec(),
        hex("af1349b9f5f9a1a6a0404dea36dcc9499bcb25c9adc112b7cc9a93cae41f3262")
    );
    let mut abc = DatasetHasher::new();
    abc.update(b"abc");
    assert_eq!(
        abc.finalize().to_vec(),
        hex("6437b3ac38465133ffb63b75273a8db548c558465d79db03fd359c6cd5bd9d85")
    );
}

#[test]
fn dataset_hash_does_not_depend_on_how_it_is_split() {
    let mut pieces = DatasetHasher::new();
    pieces.update(b"a");
    pieces.update(b"");
    pieces.update(b"bc");
    let mut whole = DatasetHasher::new();
    whole.update(b"abc");
    assert_eq!(pieces.finalize(), whole.finalize());
    let big: Vec<u8> = (0..200_000u32).map(|i| (i % 251) as u8).collect();
    let mut chunked = DatasetHasher::new();
    for c in big.chunks(65_536) {
        chunked.update(c);
    }
    let mut once = DatasetHasher::new();
    once.update(&big);
    assert_eq!(chunked.finalize(), once.finalize());
}

#[test]
fn random_content_keys_are_fresh_32_byte_keys() {
    let a = generate_tpf3_random_content_key(CipherSuite::Aes256Gcm);
    let b = generate_tpf3_random_content_key(CipherSuite::XChaCha20Poly1305);
    assert_eq!(a.len(), 32);
    assert_eq!(b.len(), 32);
    assert_ne!(a, b);
    assert_ne!(a, vec![0u8; 32]);
}
