//! Whole vault files: a serialized header followed by the AEAD payload. These
//! are the computing cores of the encrypt and decrypt workflows; reading and
//! writing files, prompting and choosing randomness stay with the caller.
use vstd::bytes::{spec_u16_to_le_bytes, spec_u32_to_le_bytes};
use vstd::prelude::*;
use vstd::utf8::encode_utf8;

use crate::bytes::append_bytes;
use crate::crypto::{
    dataset_hash_view, decrypt_payload, decrypt_tpf3_payload, derive_tpf3_content_key,
    derive_vault_key, encrypt_payload, encrypt_tpf3_payload, kdf_input, same_bytes_result,
    tpf2_open, tpf2_seal, tpf2_vault_key, tpf3_content_key, tpf3_decrypt_result,
    tpf3_encrypt_result, tpf3_open_in_range, tpf3_seal_in_range, CryptoError,
};
use crate::format::{
    new_v3_view, parse_vault, tpf2_magic, CipherSuite, FormatError,
    KeyWrapMode, ParsedVaultHeaderView, Tpf2Header, Tpf2HeaderView, Tpf3Header, Tpf3HeaderView,
    HEADER_SIZE,
};
use crate::format_laws::{
    lemma_tpf2_encoding_layout, lemma_tpf2_roundtrip, lemma_tpf3_encoding_layout,
    lemma_tpf3_roundtrip,
};
use crate::primitives::{
    aes256gcm_open, aes256gcm_seal, argon2_accepts, argon2id_root_key, hkdf_sha256, wipe_bytes,
    xchacha20poly1305_open, xchacha20poly1305_seal,
};
use crate::tpm::{encode_tpm_policy, encode_tpm_policy_result, TpmKeyScope, Win32Error};

verus! {

/// Argon2id memory cost of newly created vaults (KiB, 256 MiB).
pub const DEFAULT_KDF_M_COST: u32 = 262144;

/// Argon2id time cost of newly created vaults.
pub const DEFAULT_KDF_T_COST: u16 = 3;

/// Argon2id parallelism of newly created vaults.
pub const DEFAULT_KDF_P_COST: u8 = 1;

/// The header of a new TPF2 vault: version 2, canonical ids, the given costs.
pub open spec fn new_tpf2_view(kdf_m: u32, kdf_t: u16, kdf_p: u8, os_salt: Seq<u8>, nonce: Seq<u8>) -> Tpf2HeaderView {
    Tpf2HeaderView {
        magic: tpf2_magic(),
        version: 2,
        flags: 0,
        alg_id: 1,
        kdf_id: 1,
        kdf_m,
        kdf_t,
        kdf_p,
        tpm_flag: 0,
        reserved: seq![0u8, 0u8],
        os_salt,
        nonce,
    }
}

/// What sealing a plaintext into a new TPF2 vault yields: the header bytes
/// followed by the AES-256-GCM payload.
pub open spec fn tpf2_vault_bytes(
    passphrase: Seq<char>,
    dataset_hash: Option<Seq<u8>>,
    kdf_m: u32,
    kdf_t: u16,
    kdf_p: u8,
    os_salt: Seq<u8>,
    nonce: Seq<u8>,
    plaintext: Seq<u8>,
) -> Result<Seq<u8>, CryptoError> {
    let h = new_tpf2_view(kdf_m, kdf_t, kdf_p, os_salt, nonce);
    match tpf2_vault_key(passphrase, dataset_hash, h) {
        None => Err(CryptoError::KdfError),
        Some(k) => match tpf2_seal(k, h, plaintext) {
            Some(c) => Ok(h.encoding() + c),
            None => Err(CryptoError::AeadError),
        },
    }
}

/// What opening a TPF2 vault with header `h` yields: the payload after the
/// 62 header bytes, decrypted under the derived vault key.
pub open spec fn tpf2_vault_plaintext(
    passphrase: Seq<char>,
    dataset_hash: Option<Seq<u8>>,
    h: Tpf2HeaderView,
    vault_data: Seq<u8>,
) -> Result<Seq<u8>, CryptoError> {
    match tpf2_vault_key(passphrase, dataset_hash, h) {
        None => Err(CryptoError::KdfError),
        Some(k) => match tpf2_open(k, h, vault_data.subrange(62, vault_data.len() as int)) {
            Some(p) => Ok(p),
            None => Err(CryptoError::AeadError),
        },
    }
}

/// A new TPF2 vault, for every passphrase, dataset choice, cost, salt, nonce
/// and plaintext, stated on literal offsets: magic `TPF2`, version 2, flags 0,
/// algorithm and KDF ids 1, the costs, TPM flag 0, reserved zeros, the salt
/// and the nonce, then the AES-256-GCM seal of the plaintext under the
/// HKDF-expanded Argon2id key with those 62 header bytes as associated data.
pub proof fn lemma_tpf2_vault_layout(
    passphrase: Seq<char>,
    dataset_hash: Option<Seq<u8>>,
    kdf_m: u32,
    kdf_t: u16,
    kdf_p: u8,
    os_salt: Seq<u8>,
    nonce: Seq<u8>,
    plaintext: Seq<u8>,
)
    requires
        os_salt.len() == 32,
        nonce.len() == 12,
        tpf2_vault_bytes(passphrase, dataset_hash, kdf_m, kdf_t, kdf_p, os_salt, nonce, plaintext) is Ok,
    ensures
        ({
            let v = tpf2_vault_bytes(
                passphrase,
                dataset_hash,
                kdf_m,
                kdf_t,
                kdf_p,
                os_salt,
                nonce,
                plaintext,
            )->Ok_0;
            let pw = match dataset_hash {
                Some(x) => encode_utf8(passphrase) + x,
                None => encode_utf8(passphrase),
            };
            let key = hkdf_sha256(
                os_salt,
                argon2id_root_key(pw, os_salt, kdf_m, kdf_t as u32, kdf_p as u32, 32),
                encode_utf8("TPV2:ENC:AES-256-GCM"@),
                32,
            );
            &&& v.len() >= 62
            &&& v.subrange(0, 4) == seq![0x54u8, 0x50u8, 0x46u8, 0x32u8]
            &&& v[4] == 2u8
            &&& v[5] == 0u8
            &&& v[6] == 1u8
            &&& v[7] == 1u8
            &&& v.subrange(8, 12) == spec_u32_to_le_bytes(kdf_m)
            &&& v.subrange(12, 14) == spec_u16_to_le_bytes(kdf_t)
            &&& v[14] == kdf_p
            &&& v[15] == 0u8
            &&& v.subrange(16, 18) == seq![0u8, 0u8]
            &&& v.subrange(18, 50) == os_salt
            &&& v.subrange(50, 62) == nonce
            &&& v.subrange(62, v.len() as int) == aes256gcm_seal(
                key,
                nonce,
                plaintext,
                v.subrange(0, 62),
            )
        }),
{
    let h = new_tpf2_view(kdf_m, kdf_t, kdf_p, os_salt, nonce);
    lemma_tpf2_encoding_layout(h);
    let e = h.encoding();
    let v = tpf2_vault_bytes(passphrase, dataset_hash, kdf_m, kdf_t, kdf_p, os_salt, nonce, plaintext)->Ok_0;
    let c = v.subrange(62, v.len() as int);
    assert(v.subrange(0, 62) =~= e);
    assert(v.subrange(0, 4) =~= e.subrange(0, 4));
    assert(v.subrange(8, 12) =~= e.subrange(8, 12));
    assert(v.subrange(12, 14) =~= e.subrange(12, 14));
    assert(v.subrange(16, 18) =~= e.subrange(16, 18));
    assert(v.subrange(18, 50) =~= e.subrange(18, 50));
    assert(v.subrange(50, 62) =~= e.subrange(50, 62));
    assert(v[4] == e[4] && v[5] == e[5] && v[6] == e[6] && v[7] == e[7]);
    assert(v[14] == e[14] && v[15] == e[15]);
}

/// Builds a new TPF2 vault: a version-2 header with the given Argon2id costs
/// (the application uses the `DEFAULT_KDF_*` costs), then the payload
/// encrypted under the derived vault key.
pub fn seal_tpf2_vault(
    passphrase: &str,
    dataset_hash: Option<[u8; 32]>,
    kdf_m: u32,
    kdf_t: u16,
    kdf_p: u8,
    os_salt: [u8; 32],
    nonce: [u8; 12],
    plaintext: &[u8],
) -> (r: Result<Vec<u8>, CryptoError>)
    ensures
        same_bytes_result(
            r,
            tpf2_vault_bytes(
                passphrase@,
                dataset_hash_view(dataset_hash),
                kdf_m,
                kdf_t,
                kdf_p,
                os_salt@,
                nonce@,
                plaintext@,
            ),
        ),
        r matches Ok(v) ==> parse_vault(v@) == Ok::<ParsedVaultHeaderView, FormatError>(
            ParsedVaultHeaderView::Tpf2(new_tpf2_view(kdf_m, kdf_t, kdf_p, os_salt@, nonce@)),
        ),
        r matches Ok(v) ==> tpf2_vault_plaintext(
            passphrase@,
            dataset_hash_view(dataset_hash),
            new_tpf2_view(kdf_m, kdf_t, kdf_p, os_salt@, nonce@),
            v@,
        ) == Ok::<Seq<u8>, CryptoError>(plaintext@),
        r matches Ok(v) ==> v@.len() == 62 + plaintext@.len() + 16,
        r matches Ok(v) ==> {
            let key = hkdf_sha256(
                os_salt@,
                argon2id_root_key(
                    match dataset_hash {
                        Some(x) => encode_utf8(passphrase@) + x@,
                        None => encode_utf8(passphrase@),
                    },
                    os_salt@,
                    kdf_m,
                    kdf_t as u32,
                    kdf_p as u32,
                    32,
                ),
                encode_utf8("TPV2:ENC:AES-256-GCM"@),
                32,
            );
            &&& v@.subrange(0, 4) == seq![0x54u8, 0x50u8, 0x46u8, 0x32u8]
            &&& v@[4] == 2u8
            &&& v@[5] == 0u8
            &&& v@[6] == 1u8
            &&& v@[7] == 1u8
            &&& v@.subrange(8, 12) == spec_u32_to_le_bytes(kdf_m)
            &&& v@.subrange(12, 14) == spec_u16_to_le_bytes(kdf_t)
            &&& v@[14] == kdf_p
            &&& v@[15] == 0u8
            &&& v@.subrange(16, 18) == seq![0u8, 0u8]
            &&& v@.subrange(18, 50) == os_salt@
            &&& v@.subrange(50, 62) == nonce@
            &&& v@.subrange(62, v@.len() as int) == aes256gcm_seal(
                key,
                nonce@,
                plaintext@,
                v@.subrange(0, 62),
            )
        },
{
    let header = Tpf2Header::new_v2(
        0,
        kdf_m,
        kdf_t,
        kdf_p,
        0,
        os_salt,
        nonce,
    );
    assert(header@ == new_tpf2_view(kdf_m, kdf_t, kdf_p, os_salt@, nonce@));
    let mut vault_key = match derive_vault_key(passphrase, dataset_hash, &header) {
        Ok(k) => k,
        Err(e) => {
            return Err(e);
        },
    };
    let ghost key = vault_key@;
    let sealed = encrypt_payload(vault_key.as_slice(), &header, plaintext);
    wipe_bytes(&mut vault_key);
    let ciphertext = match sealed {
        Ok(c) => c,
        Err(e) => {
            return Err(e);
        },
    };
    let mut vault_data = header.as_bytes();
    append_bytes(&mut vault_data, ciphertext.as_slice());
    proof {
        lemma_tpf2_encoding_layout(header@);
        assert(vault_data@.subrange(0, 62) =~= header@.encoding());
        assert(vault_data@.subrange(0, 4) =~= header@.encoding().subrange(0, 4));
        assert(vault_data@.subrange(8, 12) =~= header@.encoding().subrange(8, 12));
        assert(vault_data@.subrange(12, 14) =~= header@.encoding().subrange(12, 14));
        assert(vault_data@.subrange(16, 18) =~= header@.encoding().subrange(16, 18));
        assert(vault_data@.subrange(18, 50) =~= header@.encoding().subrange(18, 50));
        assert(vault_data@.subrange(50, 62) =~= header@.encoding().subrange(50, 62));
        lemma_tpf2_roundtrip(header@, ciphertext@);
        assert(vault_data@.subrange(0, 4) =~= tpf2_magic());
        assert(vault_data@.subrange(62, vault_data@.len() as int) =~= ciphertext@);
    }
    Ok(vault_data)
}

/// Opens a parsed TPF2 vault: derives the vault key from the header and
/// decrypts the payload that follows the 62 header bytes.
pub fn open_tpf2_vault(
    passphrase: &str,
    dataset_hash: Option<[u8; 32]>,
    header: &Tpf2Header,
    vault_data: &[u8],
) -> (r: Result<Vec<u8>, CryptoError>)
    requires
        vault_data@.len() >= 62,
    ensures
        same_bytes_result(
            r,
            tpf2_vault_plaintext(passphrase@, dataset_hash_view(dataset_hash), header@, vault_data@),
        ),
        r matches Ok(p) ==> {
            let root = argon2id_root_key(
                match dataset_hash {
                    Some(x) => encode_utf8(passphrase@) + x@,
                    None => encode_utf8(passphrase@),
                },
                header.os_salt@,
                header.kdf_m,
                header.kdf_t as u32,
                header.kdf_p as u32,
                32,
            );
            let key = if header.version >= 2 {
                hkdf_sha256(header.os_salt@, root, encode_utf8("TPV2:ENC:AES-256-GCM"@), 32)
            } else {
                root
            };
            aes256gcm_open(
                key,
                header.nonce@,
                vault_data@.subrange(62, vault_data@.len() as int),
                header@.encoding(),
            ) == Some(p@)
        },
{
    let ciphertext = &vault_data[HEADER_SIZE..vault_data.len()];
    let mut vault_key = match derive_vault_key(passphrase, dataset_hash, header) {
        Ok(k) => k,
        Err(e) => {
            return Err(e);
        },
    };
    let opened = decrypt_payload(vault_key.as_slice(), header, ciphertext);
    wipe_bytes(&mut vault_key);
    opened
}

/// The payload of a TPF3 vault: everything after the header's blobs.
pub open spec fn tpf3_payload(h: Tpf3HeaderView, vault_data: Seq<u8>) -> Seq<u8> {
    vault_data.subrange(h.body_offset(), vault_data.len() as int)
}

/// What sealing with a given content key yields: the serialized header
/// followed by the payload encrypted under the header's cipher suite.
pub open spec fn tpf3_vault_bytes(key: Seq<u8>, h: Tpf3HeaderView, plaintext: Seq<u8>) -> Result<
    Seq<u8>,
    CryptoError,
> {
    match tpf3_encrypt_result(key, h, plaintext) {
        Ok(c) => Ok(h.encoding() + c),
        Err(e) => Err(e),
    }
}

/// A serialized TPF3 header followed by a payload splits back at
/// `body_offset`, and parses as that header when it is a TPF3 v1 header.
proof fn lemma_tpf3_vault_split(h: Tpf3HeaderView, payload: Seq<u8>)
    requires
        h.serialized() is Ok,
        h.well_sized(),
    ensures
        ({
            let v = h.encoding() + payload;
            &&& v.len() == h.body_offset() + payload.len()
            &&& v.subrange(0, h.body_offset()) == h.encoding()
            &&& v.subrange(h.body_offset(), v.len() as int) == payload
            &&& tpf3_payload(h, v) == payload
            &&& (h.magic == crate::format::tpf3_magic() && h.version == 1 ==> parse_vault(v)
                == Ok::<ParsedVaultHeaderView, FormatError>(ParsedVaultHeaderView::Tpf3(h)))
        }),
{
    let v = h.encoding() + payload;
    crate::format_laws::lemma_tpf3_encoding_len(h);
    assert(v.subrange(0, h.body_offset()) =~= h.encoding());
    assert(v.subrange(h.body_offset(), v.len() as int) =~= payload);
    if h.magic == crate::format::tpf3_magic() && h.version == 1 {
        lemma_tpf3_roundtrip(h, payload);
        assert(v.subrange(0, 4) =~= crate::format::tpf3_magic());
        assert(v.subrange(0, 4) != tpf2_magic());
    }
}

/// The header fields of a TPF3 vault whose first `body_offset` bytes are the
/// serialized header, read at their literal offsets.
proof fn lemma_tpf3_vault_prefix(h: Tpf3HeaderView, v: Seq<u8>)
    requires
        h.well_sized(),
        h.body_offset() <= v.len(),
        v.subrange(0, h.body_offset()) == h.encoding(),
    ensures
        v.subrange(0, 4) == h.magic,
        v[4] == h.version,
        v.subrange(5, 7) == spec_u16_to_le_bytes(h.flags),
        v[7] == (match h.cipher_suite {
            CipherSuite::Aes256Gcm => 1u8,
            CipherSuite::XChaCha20Poly1305 => 2u8,
        }),
        v[8] == 1u8,
        v[9] == (match h.wrap_mode {
            KeyWrapMode::Direct => 0u8,
            KeyWrapMode::TpmWrapped => 1u8,
            KeyWrapMode::MlKem768 => 2u8,
        }),
        v[10] == h.nonce.len() as u8,
        v.subrange(11, 13) == spec_u16_to_le_bytes(h.wrapped_key.len() as u16),
        v.subrange(13, 15) == spec_u16_to_le_bytes(h.kem_ciphertext.len() as u16),
        v.subrange(15, 17) == spec_u16_to_le_bytes(h.tpm_policy.len() as u16),
        v.subrange(17, 21) == spec_u32_to_le_bytes(h.kdf_m),
        v.subrange(21, 23) == spec_u16_to_le_bytes(h.kdf_t),
        v[23] == h.kdf_p,
        v.subrange(24, 56) == h.os_salt,
        v.subrange(56, 56int + h.nonce.len()) == h.nonce,
        v.subrange(56int + h.nonce.len(), 56int + h.nonce.len() + h.wrapped_key.len())
            == h.wrapped_key,
        v.subrange(
            56int + h.nonce.len() + h.wrapped_key.len(),
            56int + h.nonce.len() + h.wrapped_key.len() + h.kem_ciphertext.len(),
        ) == h.kem_ciphertext,
        v.subrange(
            56int + h.nonce.len() + h.wrapped_key.len() + h.kem_ciphertext.len(),
            h.body_offset(),
        ) == h.tpm_policy,
{
    lemma_tpf3_encoding_layout(h);
    let e = h.encoding();
    let p = v.subrange(0, h.body_offset());
    assert forall|i: int| 0 <= i < h.body_offset() implies v[i] == #[trigger] e[i] by {
        assert(p[i] == v[i]);
    }
    assert(v.subrange(0, 4) =~= e.subrange(0, 4));
    assert(v.subrange(5, 7) =~= e.subrange(5, 7));
    assert(v.subrange(11, 13) =~= e.subrange(11, 13));
    assert(v.subrange(13, 15) =~= e.subrange(13, 15));
    assert(v.subrange(15, 17) =~= e.subrange(15, 17));
    assert(v.subrange(17, 21) =~= e.subrange(17, 21));
    assert(v.subrange(21, 23) =~= e.subrange(21, 23));
    assert(v.subrange(24, 56) =~= e.subrange(24, 56));
    assert(v.subrange(56, 56int + h.nonce.len()) =~= e.subrange(56, 56int + h.nonce.len()));
    let b = 56int + h.nonce.len();
    let c = b + h.wrapped_key.len();
    let d = c + h.kem_ciphertext.len();
    assert(v.subrange(b, c) =~= e.subrange(b, c));
    assert(v.subrange(c, d) =~= e.subrange(c, d));
    assert(v.subrange(d, h.body_offset()) =~= e.subrange(d, d + h.tpm_policy.len()));
    assert(v[4] == e[4]);
    assert(v[7] == e[7]);
    assert(v[8] == e[8]);
    assert(v[9] == e[9]);
    assert(v[10] == e[10]);
    assert(v[23] == e[23]);
}

/// Builds a TPF3 vault around a header whose content key is already known
/// (direct derivation or an unwrapped key).
pub fn seal_tpf3_vault_with_key(content_key: &[u8], header: &Tpf3Header, plaintext: &[u8]) -> (r:
    Result<Vec<u8>, CryptoError>)
    requires
        header@.serialized() is Ok ==> content_key@.len() == 32,
        tpf3_seal_in_range(header@, plaintext@.len() as int),
    ensures
        same_bytes_result(r, tpf3_vault_bytes(content_key@, header@, plaintext@)),
        r matches Ok(v) ==> (header@.magic == crate::format::tpf3_magic() && header@.version == 1
            ==> parse_vault(v@) == Ok::<ParsedVaultHeaderView, FormatError>(
            ParsedVaultHeaderView::Tpf3(header@),
        )),
        r matches Ok(v) ==> tpf3_decrypt_result(
            content_key@,
            header@,
            tpf3_payload(header@, v@),
        ) == Ok::<Seq<u8>, CryptoError>(plaintext@),
        r matches Ok(v) ==> v@.len() == header@.body_offset() + plaintext@.len() + 16,
        r matches Ok(v) ==> {
            &&& v@.subrange(0, header@.body_offset()) == header@.encoding()
            &&& v@.subrange(header@.body_offset(), v@.len() as int) == match header.cipher_suite {
                CipherSuite::Aes256Gcm => aes256gcm_seal(
                    content_key@,
                    header.nonce@,
                    plaintext@,
                    header@.encoding(),
                ),
                CipherSuite::XChaCha20Poly1305 => xchacha20poly1305_seal(
                    content_key@,
                    header.nonce@,
                    plaintext@,
                    header@.encoding(),
                ),
            }
        },
{
    let header_bytes = match header.as_bytes() {
        Ok(b) => b,
        Err(e) => {
            return Err(CryptoError::FormatError(e));
        },
    };
    let ciphertext = match encrypt_tpf3_payload(content_key, header, plaintext) {
        Ok(c) => c,
        Err(e) => {
            return Err(e);
        },
    };
    let mut vault_data = header_bytes;
    append_bytes(&mut vault_data, ciphertext.as_slice());
    proof {
        assert(vault_data@ =~= header@.encoding() + ciphertext@);
        lemma_tpf3_vault_split(header@, ciphertext@);
    }
    Ok(vault_data)
}

/// The header of a new direct-derivation TPF3 vault with the given costs.
pub open spec fn new_tpf3_direct_view(
    cipher_suite: CipherSuite,
    kdf_m: u32,
    kdf_t: u16,
    kdf_p: u8,
    os_salt: Seq<u8>,
    nonce: Seq<u8>,
) -> Tpf3HeaderView {
    new_v3_view(
        0,
        cipher_suite,
        KeyWrapMode::Direct,
        kdf_m,
        kdf_t,
        kdf_p,
        os_salt,
        nonce,
        Seq::empty(),
        Seq::empty(),
        Seq::empty(),
    )
}

/// What sealing a plaintext into a new direct-derivation TPF3 vault yields.
pub open spec fn tpf3_direct_vault_bytes(
    passphrase: Seq<char>,
    dataset_hash: Option<Seq<u8>>,
    cipher_suite: CipherSuite,
    kdf_m: u32,
    kdf_t: u16,
    kdf_p: u8,
    os_salt: Seq<u8>,
    nonce: Seq<u8>,
    plaintext: Seq<u8>,
) -> Result<Seq<u8>, CryptoError> {
    let h = new_tpf3_direct_view(cipher_suite, kdf_m, kdf_t, kdf_p, os_salt, nonce);
    match h.validation_error() {
        Some(e) => Err(CryptoError::FormatError(e)),
        None => match tpf3_content_key(passphrase, dataset_hash, h) {
            None => Err(CryptoError::KdfError),
            Some(k) => tpf3_vault_bytes(k, h, plaintext),
        },
    }
}

/// What opening a direct-derivation TPF3 vault with header `h` yields.
pub open spec fn tpf3_direct_vault_plaintext(
    passphrase: Seq<char>,
    dataset_hash: Option<Seq<u8>>,
    h: Tpf3HeaderView,
    vault_data: Seq<u8>,
) -> Result<Seq<u8>, CryptoError> {
    match tpf3_content_key(passphrase, dataset_hash, h) {
        None => Err(CryptoError::KdfError),
        Some(k) => tpf3_decrypt_result(k, h, tpf3_payload(h, vault_data)),
    }
}

/// Builds a new direct-derivation TPF3 vault: the header (the given costs, no
/// wrapped-key blobs), the content key derived from passphrase and dataset
/// hash, then the encrypted payload.
pub fn seal_tpf3_vault_direct(
    passphrase: &str,
    dataset_hash: Option<[u8; 32]>,
    cipher_suite: CipherSuite,
    kdf_m: u32,
    kdf_t: u16,
    kdf_p: u8,
    os_salt: [u8; 32],
    nonce: Vec<u8>,
    plaintext: &[u8],
) -> (r: Result<Vec<u8>, CryptoError>)
    requires
        argon2_accepts(
            kdf_input(passphrase@, dataset_hash_view(dataset_hash)).len(),
            32,
            kdf_m,
            kdf_t as u32,
            kdf_p as u32,
            32,
        ) ==> tpf3_seal_in_range(
            new_tpf3_direct_view(cipher_suite, kdf_m, kdf_t, kdf_p, os_salt@, nonce@),
            plaintext@.len() as int,
        ),
    ensures
        same_bytes_result(
            r,
            tpf3_direct_vault_bytes(
                passphrase@,
                dataset_hash_view(dataset_hash),
                cipher_suite,
                kdf_m,
                kdf_t,
                kdf_p,
                os_salt@,
                nonce@,
                plaintext@,
            ),
        ),
        r matches Ok(v) ==> parse_vault(v@) == Ok::<ParsedVaultHeaderView, FormatError>(
            ParsedVaultHeaderView::Tpf3(new_tpf3_direct_view(cipher_suite, kdf_m, kdf_t, kdf_p, os_salt@, nonce@)),
        ),
        r matches Ok(v) ==> tpf3_direct_vault_plaintext(
            passphrase@,
            dataset_hash_view(dataset_hash),
            new_tpf3_direct_view(cipher_suite, kdf_m, kdf_t, kdf_p, os_salt@, nonce@),
            v@,
        ) == Ok::<Seq<u8>, CryptoError>(plaintext@),
        r matches Ok(v) ==> v@.len() == 56 + nonce@.len() + plaintext@.len() + 16,
        r matches Ok(v) ==> {
            let body = 56int + nonce@.len();
            let key = hkdf_sha256(
                os_salt@,
                argon2id_root_key(
                    match dataset_hash {
                        Some(x) => encode_utf8(passphrase@) + x@,
                        None => encode_utf8(passphrase@),
                    },
                    os_salt@,
                    kdf_m,
                    kdf_t as u32,
                    kdf_p as u32,
                    32,
                ),
                encode_utf8(
                    match cipher_suite {
                        CipherSuite::Aes256Gcm => "TPF3:ENC:AES-256-GCM"@,
                        CipherSuite::XChaCha20Poly1305 => "TPF3:ENC:XCHACHA20-POLY1305"@,
                    },
                ),
                32,
            );
            &&& nonce@.len() == (match cipher_suite {
                CipherSuite::Aes256Gcm => 12int,
                CipherSuite::XChaCha20Poly1305 => 24int,
            })
            &&& v@.subrange(0, 4) == seq![0x54u8, 0x50u8, 0x46u8, 0x33u8]
            &&& v@[4] == 1u8
            &&& v@.subrange(5, 7) == spec_u16_to_le_bytes(0)
            &&& v@[7] == (match cipher_suite {
                CipherSuite::Aes256Gcm => 1u8,
                CipherSuite::XChaCha20Poly1305 => 2u8,
            })
            &&& v@[8] == 1u8
            &&& v@[9] == 0u8
            &&& v@[10] == nonce@.len() as u8
            &&& v@.subrange(11, 13) == spec_u16_to_le_bytes(0)
            &&& v@.subrange(13, 15) == spec_u16_to_le_bytes(0)
            &&& v@.subrange(15, 17) == spec_u16_to_le_bytes(0)
            &&& v@.subrange(17, 21) == spec_u32_to_le_bytes(kdf_m)
            &&& v@.subrange(21, 23) == spec_u16_to_le_bytes(kdf_t)
            &&& v@[23] == kdf_p
            &&& v@.subrange(24, 56) == os_salt@
            &&& v@.subrange(56, body) == nonce@
            &&& v@.subrange(body, v@.len() as int) == match cipher_suite {
                CipherSuite::Aes256Gcm => aes256gcm_seal(key, nonce@, plaintext@, v@.subrange(0, body)),
                CipherSuite::XChaCha20Poly1305 => xchacha20poly1305_seal(
                    key,
                    nonce@,
                    plaintext@,
                    v@.subrange(0, body),
                ),
            }
        },
{
    let ghost nv = nonce@;
    let header = match Tpf3Header::new_v3(
        0,
        cipher_suite,
        KeyWrapMode::Direct,
        kdf_m,
        kdf_t,
        kdf_p,
        os_salt,
        nonce,
        Vec::new(),
        Vec::new(),
        Vec::new(),
    ) {
        Ok(h) => h,
        Err(e) => {
            assert(new_v3_view(0, cipher_suite, KeyWrapMode::Direct, kdf_m, kdf_t, kdf_p, os_salt@, nv,
                Seq::empty(), Seq::empty(), Seq::empty()) == new_tpf3_direct_view(cipher_suite, kdf_m, kdf_t, kdf_p, os_salt@, nv));
            return Err(CryptoError::FormatError(e));
        },
    };
    assert(header@ =~= new_tpf3_direct_view(cipher_suite, kdf_m, kdf_t, kdf_p, os_salt@, nv));
    let mut content_key = match derive_tpf3_content_key(passphrase, dataset_hash, &header) {
        Ok(k) => k,
        Err(e) => {
            return Err(e);
        },
    };
    let sealed = seal_tpf3_vault_with_key(content_key.as_slice(), &header, plaintext);
    wipe_bytes(&mut content_key);
    proof {
        if sealed is Ok {
            let v = sealed->Ok_0@;
            lemma_tpf3_vault_prefix(header@, v);
            crate::format_laws::lemma_tpf3_encoding_len(header@);
        }
    }
    sealed
}

/// Opens a parsed TPF3 vault whose content key is derived from the passphrase.
pub fn open_tpf3_vault_direct(
    passphrase: &str,
    dataset_hash: Option<[u8; 32]>,
    header: &Tpf3Header,
    vault_data: &[u8],
) -> (r: Result<Vec<u8>, CryptoError>)
    requires
        header@.body_offset() <= vault_data.len(),
        argon2_accepts(
            kdf_input(passphrase@, dataset_hash_view(dataset_hash)).len(),
            32,
            header@.kdf_m,
            header@.kdf_t as u32,
            header@.kdf_p as u32,
            32,
        ) ==> tpf3_open_in_range(header@, vault_data@.len() - header@.body_offset()),
    ensures
        same_bytes_result(
            r,
            tpf3_direct_vault_plaintext(
                passphrase@,
                dataset_hash_view(dataset_hash),
                header@,
                vault_data@,
            ),
        ),
        r matches Ok(p) ==> {
            let key = hkdf_sha256(
                header.os_salt@,
                argon2id_root_key(
                    match dataset_hash {
                        Some(x) => encode_utf8(passphrase@) + x@,
                        None => encode_utf8(passphrase@),
                    },
                    header.os_salt@,
                    header.kdf_m,
                    header.kdf_t as u32,
                    header.kdf_p as u32,
                    32,
                ),
                encode_utf8(
                    match header.cipher_suite {
                        CipherSuite::Aes256Gcm => "TPF3:ENC:AES-256-GCM"@,
                        CipherSuite::XChaCha20Poly1305 => "TPF3:ENC:XCHACHA20-POLY1305"@,
                    },
                ),
                32,
            );
            let payload = vault_data@.subrange(header@.body_offset(), vault_data@.len() as int);
            &&& header@.serialized() == Ok::<Seq<u8>, FormatError>(header@.encoding())
            &&& match header.cipher_suite {
                CipherSuite::Aes256Gcm => aes256gcm_open(
                    key,
                    header.nonce@,
                    payload,
                    header@.encoding(),
                ) == Some(p@),
                CipherSuite::XChaCha20Poly1305 => xchacha20poly1305_open(
                    key,
                    header.nonce@,
                    payload,
                    header@.encoding(),
                ) == Some(p@),
            }
        },
{
    let mut content_key = match derive_tpf3_content_key(passphrase, dataset_hash, header) {
        Ok(k) => k,
        Err(e) => {
            return Err(e);
        },
    };
    let offset = header.body_offset();
    let opened = decrypt_tpf3_payload(
        content_key.as_slice(),
        header,
        &vault_data[offset..vault_data.len()],
    );
    wipe_bytes(&mut content_key);
    opened
}

/// Opens a parsed TPF3 vault with a content key obtained otherwise (for
/// example unwrapped by the TPM).
pub fn open_tpf3_vault_with_key(content_key: &[u8], header: &Tpf3Header, vault_data: &[u8]) -> (r:
    Result<Vec<u8>, CryptoError>)
    requires
        header@.body_offset() <= vault_data.len(),
        header@.serialized() is Ok ==> content_key@.len() == 32,
        tpf3_open_in_range(header@, vault_data@.len() - header@.body_offset()),
    ensures
        same_bytes_result(
            r,
            tpf3_decrypt_result(content_key@, header@, tpf3_payload(header@, vault_data@)),
        ),
        r matches Ok(p) ==> {
            let payload = vault_data@.subrange(header@.body_offset(), vault_data@.len() as int);
            &&& header@.serialized() == Ok::<Seq<u8>, FormatError>(header@.encoding())
            &&& match header.cipher_suite {
                CipherSuite::Aes256Gcm => aes256gcm_open(
                    content_key@,
                    header.nonce@,
                    payload,
                    header@.encoding(),
                ) == Some(p@),
                CipherSuite::XChaCha20Poly1305 => xchacha20poly1305_open(
                    content_key@,
                    header.nonce@,
                    payload,
                    header@.encoding(),
                ) == Some(p@),
            }
        },
{
    let offset = header.body_offset();
    decrypt_tpf3_payload(content_key, header, &vault_data[offset..vault_data.len()])
}

/* ------------------------------------------------------------------------ */
/* TPM-wrapped TPF3 vaults                                                  */
/* ------------------------------------------------------------------------ */

/// Why a TPM-wrapped vault could not be built: the policy naming the TPM key
/// could not be encoded, or the header or payload failed.
#[derive(Debug)]
pub enum WrappedVaultError {
    Policy(Win32Error),
    Vault(CryptoError),
}

/// The header of a new TPM-wrapped TPF3 vault: the wrapped content key and the
/// policy blob, no KEM ciphertext.
pub open spec fn tpm_wrapped_view(
    cipher_suite: CipherSuite,
    kdf_m: u32,
    kdf_t: u16,
    kdf_p: u8,
    os_salt: Seq<u8>,
    nonce: Seq<u8>,
    wrapped_key: Seq<u8>,
    tpm_policy: Seq<u8>,
) -> Tpf3HeaderView {
    new_v3_view(
        0,
        cipher_suite,
        KeyWrapMode::TpmWrapped,
        kdf_m,
        kdf_t,
        kdf_p,
        os_salt,
        nonce,
        wrapped_key,
        Seq::empty(),
        tpm_policy,
    )
}

/// What sealing a plaintext into a new TPM-wrapped TPF3 vault yields.
pub open spec fn tpf3_tpm_vault_bytes(
    alias: Seq<char>,
    scope: TpmKeyScope,
    cipher_suite: CipherSuite,
    kdf_m: u32,
    kdf_t: u16,
    kdf_p: u8,
    os_salt: Seq<u8>,
    nonce: Seq<u8>,
    wrapped_key: Seq<u8>,
    content_key: Seq<u8>,
    plaintext: Seq<u8>,
) -> Result<Seq<u8>, WrappedVaultError> {
    match encode_tpm_policy_result(alias, scope) {
        Err(e) => Err(WrappedVaultError::Policy(e)),
        Ok(policy) => {
            let h = tpm_wrapped_view(
                cipher_suite,
                kdf_m,
                kdf_t,
                kdf_p,
                os_salt,
                nonce,
                wrapped_key,
                policy,
            );
            match h.validation_error() {
                Some(e) => Err(WrappedVaultError::Vault(CryptoError::FormatError(e))),
                None => match tpf3_vault_bytes(content_key, h, plaintext) {
                    Ok(b) => Ok(b),
                    Err(e) => Err(WrappedVaultError::Vault(e)),
                },
            }
        },
    }
}

/// Builds a new TPM-wrapped TPF3 vault around a content key that the TPM key
/// `alias` in `scope` has wrapped into `wrapped_key`: the header records the
/// wrapped key and the policy naming the TPM key, and the payload is encrypted
/// under the content key.
pub fn seal_tpf3_vault_tpm(
    alias: &str,
    scope: TpmKeyScope,
    cipher_suite: CipherSuite,
    kdf_m: u32,
    kdf_t: u16,
    kdf_p: u8,
    os_salt: [u8; 32],
    nonce: Vec<u8>,
    wrapped_key: Vec<u8>,
    content_key: &[u8],
    plaintext: &[u8],
) -> (r: Result<Vec<u8>, WrappedVaultError>)
    requires
        encode_tpm_policy_result(alias@, scope) matches Ok(policy) ==> ({
            let h = tpm_wrapped_view(
                cipher_suite,
                kdf_m,
                kdf_t,
                kdf_p,
                os_salt@,
                nonce@,
                wrapped_key@,
                policy,
            );
            &&& h.serialized() is Ok ==> content_key@.len() == 32
            &&& tpf3_seal_in_range(h, plaintext@.len() as int)
        }),
    ensures
        match (r, tpf3_tpm_vault_bytes(
            alias@,
            scope,
            cipher_suite,
            kdf_m,
            kdf_t,
            kdf_p,
            os_salt@,
            nonce@,
            wrapped_key@,
            content_key@,
            plaintext@,
        )) {
            (Ok(v), Ok(b)) => v@ == b,
            (Err(e1), Err(e2)) => e1 == e2,
            _ => false,
        },
        r matches Ok(v) ==> ({
            let h = tpm_wrapped_view(
                cipher_suite,
                kdf_m,
                kdf_t,
                kdf_p,
                os_salt@,
                nonce@,
                wrapped_key@,
                encode_tpm_policy_result(alias@, scope)->Ok_0,
            );
            &&& parse_vault(v@) == Ok::<ParsedVaultHeaderView, FormatError>(
                ParsedVaultHeaderView::Tpf3(h),
            )
            &&& tpf3_decrypt_result(content_key@, h, tpf3_payload(h, v@)) == Ok::<
                Seq<u8>,
                CryptoError,
            >(plaintext@)
            &&& v@.len() == h.body_offset() + plaintext@.len() + 16
        }),
        r matches Ok(v) ==> {
            let policy = encode_tpm_policy_result(alias@, scope)->Ok_0;
            let b = 56int + nonce@.len();
            let c = b + wrapped_key@.len();
            let body = c + policy.len();
            &&& v@.subrange(0, 4) == seq![0x54u8, 0x50u8, 0x46u8, 0x33u8]
            &&& v@[4] == 1u8
            &&& v@[7] == (match cipher_suite {
                CipherSuite::Aes256Gcm => 1u8,
                CipherSuite::XChaCha20Poly1305 => 2u8,
            })
            &&& v@[9] == 1u8
            &&& v@[10] == nonce@.len() as u8
            &&& v@.subrange(11, 13) == spec_u16_to_le_bytes(wrapped_key@.len() as u16)
            &&& v@.subrange(13, 15) == spec_u16_to_le_bytes(0)
            &&& v@.subrange(15, 17) == spec_u16_to_le_bytes(policy.len() as u16)
            &&& v@.subrange(17, 21) == spec_u32_to_le_bytes(kdf_m)
            &&& v@.subrange(21, 23) == spec_u16_to_le_bytes(kdf_t)
            &&& v@[23] == kdf_p
            &&& v@.subrange(24, 56) == os_salt@
            &&& v@.subrange(56, b) == nonce@
            &&& v@.subrange(b, c) == wrapped_key@
            &&& v@.subrange(c, body) == policy
            &&& v@.subrange(body, v@.len() as int) == match cipher_suite {
                CipherSuite::Aes256Gcm => aes256gcm_seal(
                    content_key@,
                    nonce@,
                    plaintext@,
                    v@.subrange(0, body),
                ),
                CipherSuite::XChaCha20Poly1305 => xchacha20poly1305_seal(
                    content_key@,
                    nonce@,
                    plaintext@,
                    v@.subrange(0, body),
                ),
            }
        },
{
    let policy = match encode_tpm_policy(alias, scope) {
        Ok(p) => p,
        Err(e) => {
            return Err(WrappedVaultError::Policy(e));
        },
    };
    let ghost pv = policy@;
    let ghost nv = nonce@;
    let ghost wv = wrapped_key@;
    let header = match Tpf3Header::new_v3(
        0,
        cipher_suite,
        KeyWrapMode::TpmWrapped,
        kdf_m,
        kdf_t,
        kdf_p,
        os_salt,
        nonce,
        wrapped_key,
        Vec::new(),
        policy,
    ) {
        Ok(h) => h,
        Err(e) => {
            assert(new_v3_view(0, cipher_suite, KeyWrapMode::TpmWrapped, kdf_m, kdf_t, kdf_p,
                os_salt@, nv, wv, Seq::empty(), pv) == tpm_wrapped_view(cipher_suite, kdf_m,
                kdf_t, kdf_p, os_salt@, nv, wv, pv));
            return Err(WrappedVaultError::Vault(CryptoError::FormatError(e)));
        },
    };
    assert(header@ =~= tpm_wrapped_view(cipher_suite, kdf_m, kdf_t, kdf_p, os_salt@, nv, wv, pv));
    match seal_tpf3_vault_with_key(content_key, &header, plaintext) {
        Ok(v) => {
            proof {
                lemma_tpf3_vault_prefix(header@, v@);
                crate::format_laws::lemma_tpf3_encoding_len(header@);
            }
            Ok(v)
        },
        Err(e) => Err(WrappedVaultError::Vault(e)),
    }
}

/// Opens a parsed TPM-wrapped TPF3 vault with the content key the TPM
/// unwrapped: a key of any size but 32 bytes cannot open the payload.
pub fn open_tpf3_vault_tpm(unwrapped_key: &[u8], header: &Tpf3Header, vault_data: &[u8]) -> (r:
    Result<Vec<u8>, CryptoError>)
    requires
        header@.body_offset() <= vault_data.len(),
        tpf3_open_in_range(header@, vault_data@.len() - header@.body_offset()),
    ensures
        unwrapped_key@.len() != 32 ==> r matches Err(CryptoError::AeadError),
        unwrapped_key@.len() == 32 ==> same_bytes_result(
            r,
            tpf3_decrypt_result(unwrapped_key@, header@, tpf3_payload(header@, vault_data@)),
        ),
        r matches Ok(p) ==> {
            let payload = vault_data@.subrange(header@.body_offset(), vault_data@.len() as int);
            &&& header@.serialized() == Ok::<Seq<u8>, FormatError>(header@.encoding())
            &&& match header.cipher_suite {
                CipherSuite::Aes256Gcm => aes256gcm_open(
                    unwrapped_key@,
                    header.nonce@,
                    payload,
                    header@.encoding(),
                ) == Some(p@),
                CipherSuite::XChaCha20Poly1305 => xchacha20poly1305_open(
                    unwrapped_key@,
                    header.nonce@,
                    payload,
                    header@.encoding(),
                ) == Some(p@),
            }
        },
{
    if unwrapped_key.len() != 32 {
        return Err(CryptoError::AeadError);
    }
    open_tpf3_vault_with_key(unwrapped_key, header, vault_data)
}

} // verus!
