//! Laws of the key schedules and of the AEAD framing, stated directly over the
//! outside primitives: which Argon2id input, HKDF label and associated data
//! each vault key and payload uses.
use vstd::prelude::*;
use vstd::utf8::encode_utf8;

use crate::crypto::{
    tpf2_open, tpf2_seal, tpf2_vault_key, tpf3_content_key, tpf3_decrypt_result,
    tpf3_encrypt_result, CryptoError,
};
use crate::format::{CipherSuite, FormatError, Tpf2HeaderView, Tpf3HeaderView};
use crate::primitives::{
    aes256gcm_open, aes256gcm_seal, argon2_accepts, argon2id_root_key, hkdf_sha256,
    xchacha20poly1305_open, xchacha20poly1305_seal,
};

verus! {

/// The Argon2id password: the passphrase's UTF-8 bytes, followed by the
/// dataset digest when one is given.
pub open spec fn argon2_password(passphrase: Seq<char>, dataset_hash: Option<Seq<u8>>) -> Seq<u8> {
    match dataset_hash {
        Some(x) => encode_utf8(passphrase) + x,
        None => encode_utf8(passphrase),
    }
}

/// The TPF2 key schedule, for every passphrase and every dataset choice: the
/// key exists exactly when Argon2 accepts the inputs; a version-2 (or later)
/// header expands the 32-byte Argon2id root key with HKDF-SHA256 under the
/// header's salt and the label `TPV2:ENC:AES-256-GCM`; a version-1 header uses
/// the root key itself.
pub proof fn lemma_tpf2_key_schedule(
    passphrase: Seq<char>,
    dataset_hash: Option<Seq<u8>>,
    h: Tpf2HeaderView,
)
    ensures
        ({
            let pw = argon2_password(passphrase, dataset_hash);
            let root = argon2id_root_key(
                pw,
                h.os_salt,
                h.kdf_m,
                h.kdf_t as u32,
                h.kdf_p as u32,
                32,
            );
            &&& tpf2_vault_key(passphrase, dataset_hash, h) is Some <==> argon2_accepts(
                pw.len(),
                h.os_salt.len(),
                h.kdf_m,
                h.kdf_t as u32,
                h.kdf_p as u32,
                32,
            )
            &&& tpf2_vault_key(passphrase, dataset_hash, h) is Some && h.version >= 2
                ==> tpf2_vault_key(passphrase, dataset_hash, h) == Some(
                hkdf_sha256(h.os_salt, root, encode_utf8("TPV2:ENC:AES-256-GCM"@), 32),
            )
            &&& tpf2_vault_key(passphrase, dataset_hash, h) is Some && h.version < 2
                ==> tpf2_vault_key(passphrase, dataset_hash, h) == Some(root)
        }),
{
}

/// The TPF3 direct key schedule, for every passphrase and every dataset
/// choice: the key exists exactly when Argon2 accepts the inputs, and is the
/// 32-byte Argon2id root key expanded with HKDF-SHA256 under the header's
/// salt and the label of its cipher suite (`TPF3:ENC:AES-256-GCM` or
/// `TPF3:ENC:XCHACHA20-POLY1305`).
pub proof fn lemma_tpf3_key_schedule(
    passphrase: Seq<char>,
    dataset_hash: Option<Seq<u8>>,
    h: Tpf3HeaderView,
)
    ensures
        ({
            let pw = argon2_password(passphrase, dataset_hash);
            let root = argon2id_root_key(
                pw,
                h.os_salt,
                h.kdf_m,
                h.kdf_t as u32,
                h.kdf_p as u32,
                32,
            );
            let label = match h.cipher_suite {
                CipherSuite::Aes256Gcm => "TPF3:ENC:AES-256-GCM"@,
                CipherSuite::XChaCha20Poly1305 => "TPF3:ENC:XCHACHA20-POLY1305"@,
            };
            &&& tpf3_content_key(passphrase, dataset_hash, h) is Some <==> argon2_accepts(
                pw.len(),
                h.os_salt.len(),
                h.kdf_m,
                h.kdf_t as u32,
                h.kdf_p as u32,
                32,
            )
            &&& tpf3_content_key(passphrase, dataset_hash, h) is Some
                ==> tpf3_content_key(passphrase, dataset_hash, h) == Some(
                hkdf_sha256(h.os_salt, root, encode_utf8(label), 32),
            )
        }),
{
}

/// The two cipher suites use different HKDF labels, so one passphrase,
/// dataset and salt give the AES and the XChaCha content key from distinct
/// expansions.
pub proof fn lemma_tpf3_labels_differ()
    ensures
        encode_utf8("TPF3:ENC:AES-256-GCM"@) != encode_utf8("TPF3:ENC:XCHACHA20-POLY1305"@),
{
    reveal_strlit("TPF3:ENC:AES-256-GCM");
    reveal_strlit("TPF3:ENC:XCHACHA20-POLY1305");
    vstd::utf8::encode_utf8_decode_utf8("TPF3:ENC:AES-256-GCM"@);
    vstd::utf8::encode_utf8_decode_utf8("TPF3:ENC:XCHACHA20-POLY1305"@);
    assert("TPF3:ENC:AES-256-GCM"@.len() != "TPF3:ENC:XCHACHA20-POLY1305"@.len());
}

/// A TPF2 payload is the AES-256-GCM seal of the plaintext under the header's
/// nonce with the 62 serialized header bytes as associated data, and opening
/// authenticates against those same bytes.
pub proof fn lemma_tpf2_payload_binds_header(
    key: Seq<u8>,
    h: Tpf2HeaderView,
    plaintext: Seq<u8>,
    ciphertext: Seq<u8>,
)
    ensures
        plaintext.len() <= 0x10_0000_0000 ==> tpf2_seal(key, h, plaintext) == Some(
            aes256gcm_seal(key, h.nonce, plaintext, h.encoding()),
        ),
        tpf2_open(key, h, ciphertext) == aes256gcm_open(key, h.nonce, ciphertext, h.encoding()),
{
}

/// A TPF3 payload is sealed with the header's cipher suite under the header's
/// nonce, with the whole serialized header as associated data, and opening
/// authenticates against that same serialized header; a header that does not
/// serialize gives its format error on both sides.
pub proof fn lemma_tpf3_payload_binds_header(
    key: Seq<u8>,
    h: Tpf3HeaderView,
    plaintext: Seq<u8>,
    ciphertext: Seq<u8>,
)
    ensures
        h.serialized() is Ok ==> h.serialized() == Ok::<Seq<u8>, FormatError>(h.encoding()),
        h.serialized() matches Err(e) ==> tpf3_encrypt_result(key, h, plaintext) == Err::<
            Seq<u8>,
            CryptoError,
        >(CryptoError::FormatError(e)) && tpf3_decrypt_result(key, h, ciphertext) == Err::<
            Seq<u8>,
            CryptoError,
        >(CryptoError::FormatError(e)),
        h.serialized() is Ok && h.cipher_suite == CipherSuite::Aes256Gcm ==> {
            &&& (plaintext.len() <= 0x10_0000_0000 && h.encoding().len() <= 0x10_0000_0000
                ==> tpf3_encrypt_result(key, h, plaintext) == Ok::<Seq<u8>, CryptoError>(
                aes256gcm_seal(key, h.nonce, plaintext, h.encoding()),
            ))
            &&& tpf3_decrypt_result(key, h, ciphertext) == match aes256gcm_open(
                key,
                h.nonce,
                ciphertext,
                h.encoding(),
            ) {
                Some(p) => Ok::<Seq<u8>, CryptoError>(p),
                None => Err::<Seq<u8>, CryptoError>(CryptoError::AeadError),
            }
        },
        h.serialized() is Ok && h.cipher_suite == CipherSuite::XChaCha20Poly1305 ==> {
            &&& (plaintext.len() / 64 < 0xffff_ffff ==> tpf3_encrypt_result(key, h, plaintext)
                == Ok::<Seq<u8>, CryptoError>(
                xchacha20poly1305_seal(key, h.nonce, plaintext, h.encoding()),
            ))
            &&& tpf3_decrypt_result(key, h, ciphertext) == match xchacha20poly1305_open(
                key,
                h.nonce,
                ciphertext,
                h.encoding(),
            ) {
                Some(p) => Ok::<Seq<u8>, CryptoError>(p),
                None => Err::<Seq<u8>, CryptoError>(CryptoError::AeadError),
            }
        },
{
}

} // verus!
