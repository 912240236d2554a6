//! Key schedules and authenticated encryption for TPF2 and TPF3 vaults.
//!
//! The primitives (Argon2id, HKDF-SHA256, AES-256-GCM, XChaCha20-Poly1305,
//! BLAKE3, the thread RNG, zeroization) come from outside crates and are called
//! through the trusted items of `primitives`; what is built on them here is
//! verified against their contracts.
use vstd::prelude::*;
use vstd::utf8::encode_utf8;

use crate::format::{
    cipher_suite_nonce_len, CipherSuite, FormatError, Tpf2Header, Tpf2HeaderView, Tpf3Header,
    Tpf3HeaderView,
};
use crate::primitives::{
    aes256gcm_decrypt, aes256gcm_encrypt, aes256gcm_open, aes256gcm_seal, aes_gcm_accepts,
    argon2_accepts, argon2id_hash, argon2id_root_key, fill_random, hkdf_sha256, hkdf_sha256_expand,
    blake3_absorbed, blake3_digest, blake3_hasher_finalize, blake3_hasher_new,
    blake3_hasher_update, wipe_bytes, xchacha20poly1305_decrypt, xchacha20poly1305_encrypt, xchacha20poly1305_open,
    xchacha20poly1305_seal, xchacha_accepts, xchacha_overruns_keystream,
};

verus! {

/// Length of the Argon2id root key and of every derived AEAD key.
pub const ROOT_KEY_LEN: usize = 32;

#[derive(Debug)]
pub enum CryptoError {
    IoError(std::io::Error),
    FormatError(FormatError),
    KdfError,
    HkdfError,
    AeadError,
}

/* ------------------------------------------------------------------------ */
/* Specifications                                                           */
/* ------------------------------------------------------------------------ */

/// The Argon2id input keying material: the passphrase's UTF-8 bytes followed,
/// when a dataset was used, by its 32-byte BLAKE3 digest.
pub open spec fn kdf_input(passphrase: Seq<char>, dataset_hash: Option<Seq<u8>>) -> Seq<u8> {
    match dataset_hash {
        Some(h) => encode_utf8(passphrase) + h,
        None => encode_utf8(passphrase),
    }
}

pub open spec fn dataset_hash_view(dataset_hash: Option<[u8; 32]>) -> Option<Seq<u8>> {
    match dataset_hash {
        Some(h) => Some(h@),
        None => None,
    }
}

/// The Argon2id root key, or `None` when Argon2 rejects the parameters or input.
pub open spec fn root_key(
    passphrase: Seq<char>,
    dataset_hash: Option<Seq<u8>>,
    os_salt: Seq<u8>,
    m_cost: u32,
    t_cost: u32,
    p_cost: u32,
) -> Option<Seq<u8>> {
    let ikm = kdf_input(passphrase, dataset_hash);
    if argon2_accepts(ikm.len(), os_salt.len(), m_cost, t_cost, p_cost, 32) {
        Some(argon2id_root_key(ikm, os_salt, m_cost, t_cost, p_cost, 32))
    } else {
        None
    }
}

pub open spec fn v2_enc_info() -> Seq<u8> {
    encode_utf8("TPV2:ENC:AES-256-GCM"@)
}

pub open spec fn tpf3_enc_info(c: CipherSuite) -> Seq<u8> {
    match c {
        CipherSuite::Aes256Gcm => encode_utf8("TPF3:ENC:AES-256-GCM"@),
        CipherSuite::XChaCha20Poly1305 => encode_utf8("TPF3:ENC:XCHACHA20-POLY1305"@),
    }
}

/// The TPF2 vault key: v1 uses the Argon2id output directly, v2 expands it with
/// HKDF-SHA256 under the `TPV2:ENC:AES-256-GCM` label.
pub open spec fn tpf2_vault_key(
    passphrase: Seq<char>,
    dataset_hash: Option<Seq<u8>>,
    h: Tpf2HeaderView,
) -> Option<Seq<u8>> {
    match root_key(passphrase, dataset_hash, h.os_salt, h.kdf_m, h.kdf_t as u32, h.kdf_p as u32) {
        Some(root) => if h.version >= 2 {
            Some(hkdf_sha256(h.os_salt, root, v2_enc_info(), 32))
        } else {
            Some(root)
        },
        None => None,
    }
}

/// The TPF3 content key of a direct-derivation vault: the Argon2id root key
/// expanded with HKDF-SHA256 under a cipher-specific label.
pub open spec fn tpf3_content_key(
    passphrase: Seq<char>,
    dataset_hash: Option<Seq<u8>>,
    h: Tpf3HeaderView,
) -> Option<Seq<u8>> {
    match root_key(passphrase, dataset_hash, h.os_salt, h.kdf_m, h.kdf_t as u32, h.kdf_p as u32) {
        Some(root) => Some(hkdf_sha256(h.os_salt, root, tpf3_enc_info(h.cipher_suite), 32)),
        None => None,
    }
}

/// The AEAD ciphertext of a TPF3 payload under the header's cipher suite, with
/// the serialized header as associated data.
pub open spec fn tpf3_seal(key: Seq<u8>, h: Tpf3HeaderView, header_bytes: Seq<u8>, plaintext: Seq<
    u8,
>) -> Option<Seq<u8>> {
    match h.cipher_suite {
        CipherSuite::Aes256Gcm => if aes_gcm_accepts(plaintext.len(), header_bytes.len()) {
            Some(aes256gcm_seal(key, h.nonce, plaintext, header_bytes))
        } else {
            None
        },
        CipherSuite::XChaCha20Poly1305 => if xchacha_accepts(plaintext.len()) {
            Some(xchacha20poly1305_seal(key, h.nonce, plaintext, header_bytes))
        } else {
            None
        },
    }
}

/// The plaintext of a TPF3 payload, or `None` when authentication fails.
pub open spec fn tpf3_open(key: Seq<u8>, h: Tpf3HeaderView, header_bytes: Seq<u8>, ciphertext: Seq<
    u8,
>) -> Option<Seq<u8>> {
    match h.cipher_suite {
        CipherSuite::Aes256Gcm => aes256gcm_open(key, h.nonce, ciphertext, header_bytes),
        CipherSuite::XChaCha20Poly1305 => xchacha20poly1305_open(
            key,
            h.nonce,
            ciphertext,
            header_bytes,
        ),
    }
}

/* ------------------------------------------------------------------------ */
/* Key derivation                                                           */
/* ------------------------------------------------------------------------ */

fn derive_argon2_root_key(
    passphrase: &str,
    dataset_hash: Option<[u8; 32]>,
    os_salt: &[u8; 32],
    m_cost: u32,
    t_cost: u32,
    p_cost: u32,
) -> (r: Result<Vec<u8>, CryptoError>)
    ensures
        match root_key(passphrase@, dataset_hash_view(dataset_hash), os_salt@, m_cost, t_cost, p_cost) {
            Some(k) => r matches Ok(v) && v@ == k,
            None => r matches Err(CryptoError::KdfError),
        },
        r matches Ok(v) ==> v@.len() == 32,
{
    if p_cost > 0xff_ffff {
        // Argon2 rejects such parallelism; refusing here also keeps its
        // `8 * p_cost` computation from overflowing.
        return Err(CryptoError::KdfError);
    }
    let mut ikm: Vec<u8> = Vec::new();
    crate::bytes::append_bytes(&mut ikm, passphrase.as_bytes());
    match dataset_hash {
        Some(hash) => {
            crate::bytes::append_bytes(&mut ikm, hash.as_slice());
        },
        None => {},
    }
    assert(ikm@ =~= kdf_input(passphrase@, dataset_hash_view(dataset_hash)));
    let result = argon2id_hash(
        ikm.as_slice(),
        os_salt.as_slice(),
        m_cost,
        t_cost,
        p_cost,
        ROOT_KEY_LEN,
    );
    wipe_bytes(&mut ikm);
    match result {
        Ok(root_key) => Ok(root_key),
        Err(_) => Err(CryptoError::KdfError),
    }
}

/// Derives the direct Argon2id output from the passphrase and optional dataset
/// hash (the legacy v1 key).
pub fn derive_master_key(
    passphrase: &str,
    dataset_hash: Option<[u8; 32]>,
    os_salt: &[u8; 32],
    m_cost: u32,
    t_cost: u32,
    p_cost: u32,
) -> (r: Result<Vec<u8>, CryptoError>)
    ensures
        match root_key(passphrase@, dataset_hash_view(dataset_hash), os_salt@, m_cost, t_cost, p_cost) {
            Some(k) => r matches Ok(v) && v@ == k,
            None => r matches Err(CryptoError::KdfError),
        },
        r matches Ok(v) ==> v@.len() == 32,
        r matches Ok(v) ==> v@ == argon2id_root_key(
            match dataset_hash {
                Some(x) => encode_utf8(passphrase@) + x@,
                None => encode_utf8(passphrase@),
            },
            os_salt@,
            m_cost,
            t_cost,
            p_cost,
            32,
        ),
{
    derive_argon2_root_key(passphrase, dataset_hash, os_salt, m_cost, t_cost, p_cost)
}

fn expand_v2_encryption_key(root_key: &[u8], os_salt: &[u8; 32]) -> (r: Result<
    Vec<u8>,
    CryptoError,
>)
    ensures
        r matches Ok(k) && k@ == hkdf_sha256(os_salt@, root_key@, v2_enc_info(), 32) && k@.len()
            == 32,
{
    match hkdf_sha256_expand(os_salt.as_slice(), root_key, "TPV2:ENC:AES-256-GCM".as_bytes(), ROOT_KEY_LEN) {
        Ok(k) => Ok(k),
        Err(_) => Err(CryptoError::HkdfError),
    }
}

fn expand_tpf3_content_key(root_key: &[u8], os_salt: &[u8; 32], cipher_suite: CipherSuite) -> (r:
    Result<Vec<u8>, CryptoError>)
    ensures
        r matches Ok(k) && k@ == hkdf_sha256(os_salt@, root_key@, tpf3_enc_info(cipher_suite), 32)
            && k@.len() == 32,
{
    let info: &str = match cipher_suite {
        CipherSuite::Aes256Gcm => "TPF3:ENC:AES-256-GCM",
        CipherSuite::XChaCha20Poly1305 => "TPF3:ENC:XCHACHA20-POLY1305",
    };
    match hkdf_sha256_expand(os_salt.as_slice(), root_key, info.as_bytes(), ROOT_KEY_LEN) {
        Ok(k) => Ok(k),
        Err(_) => Err(CryptoError::HkdfError),
    }
}

/// Version-aware TPF2 vault key derivation: v1 vaults use the Argon2id output
/// as the key, v2 vaults expand it with HKDF-SHA256.
pub fn derive_vault_key(
    passphrase: &str,
    dataset_hash: Option<[u8; 32]>,
    header: &Tpf2Header,
) -> (r: Result<Vec<u8>, CryptoError>)
    ensures
        match tpf2_vault_key(passphrase@, dataset_hash_view(dataset_hash), header@) {
            Some(k) => r matches Ok(v) && v@ == k,
            None => r matches Err(CryptoError::KdfError),
        },
        r matches Ok(v) ==> v@.len() == 32,
        r matches Ok(v) ==> {
            let root = argon2id_root_key(
                match dataset_hash {
                    Some(x) => encode_utf8(passphrase@) + x@,
                    None => encode_utf8(passphrase@),
                },
                header.os_salt@,
                header.kdf_m,
                header.kdf_t as u32,
                header.kdf_p as u32,
                32,
            );
            &&& header.version >= 2 ==> v@ == hkdf_sha256(
                header.os_salt@,
                root,
                encode_utf8("TPV2:ENC:AES-256-GCM"@),
                32,
            )
            &&& header.version < 2 ==> v@ == root
        },
{
    let mut root_key = match derive_argon2_root_key(
        passphrase,
        dataset_hash,
        &header.os_salt,
        header.kdf_m,
        header.kdf_t as u32,
        header.kdf_p as u32,
    ) {
        Ok(k) => k,
        Err(e) => {
            return Err(e);
        },
    };
    if header.uses_v2_key_schedule() {
        let enc_key = expand_v2_encryption_key(root_key.as_slice(), &header.os_salt);
        wipe_bytes(&mut root_key);
        enc_key
    } else {
        Ok(root_key)
    }
}

/// Generates a random TPF3 nonce of the size the cipher suite needs.
pub fn generate_tpf3_nonce(cipher_suite: CipherSuite) -> (r: Vec<u8>)
    ensures
        r@.len() == cipher_suite_nonce_len(cipher_suite),
{
    let mut nonce: Vec<u8> = vec![0u8; cipher_suite.nonce_len()];
    fill_random(&mut nonce);
    nonce
}

/// Generates a random content key for a TPF3 vault whose key is wrapped
/// rather than derived; both cipher suites take 32-byte keys.
pub fn generate_tpf3_random_content_key(cipher_suite: CipherSuite) -> (r: Vec<u8>)
    ensures
        r@.len() == ROOT_KEY_LEN,
{
    let mut key: Vec<u8> = vec![0u8; ROOT_KEY_LEN];
    fill_random(&mut key);
    key
}

/// Derives the content key of a direct-derivation TPF3 vault.
pub fn derive_tpf3_content_key(
    passphrase: &str,
    dataset_hash: Option<[u8; 32]>,
    header: &Tpf3Header,
) -> (r: Result<Vec<u8>, CryptoError>)
    ensures
        match tpf3_content_key(passphrase@, dataset_hash_view(dataset_hash), header@) {
            Some(k) => r matches Ok(v) && v@ == k,
            None => r matches Err(CryptoError::KdfError),
        },
        r matches Ok(v) ==> v@.len() == 32,
        r matches Ok(v) ==> v@ == hkdf_sha256(
            header.os_salt@,
            argon2id_root_key(
                match dataset_hash {
                    Some(x) => encode_utf8(passphrase@) + x@,
                    None => encode_utf8(passphrase@),
                },
                header.os_salt@,
                header.kdf_m,
                header.kdf_t as u32,
                header.kdf_p as u32,
                32,
            ),
            encode_utf8(
                match header.cipher_suite {
                    CipherSuite::Aes256Gcm => "TPF3:ENC:AES-256-GCM"@,
                    CipherSuite::XChaCha20Poly1305 => "TPF3:ENC:XCHACHA20-POLY1305"@,
                },
            ),
            32,
        ),
{
    let mut root_key = match derive_argon2_root_key(
        passphrase,
        dataset_hash,
        &header.os_salt,
        header.kdf_m,
        header.kdf_t as u32,
        header.kdf_p as u32,
    ) {
        Ok(k) => k,
        Err(e) => {
            return Err(e);
        },
    };
    let enc_key = expand_tpf3_content_key(root_key.as_slice(), &header.os_salt, header.cipher_suite);
    wipe_bytes(&mut root_key);
    enc_key
}


/* ------------------------------------------------------------------------ */
/* Authenticated encryption                                                 */
/* ------------------------------------------------------------------------ */

/// Incremental BLAKE3 hashing of a dataset that is read piece by piece, so
/// that a large dataset never has to be held in memory at once.
pub struct DatasetHasher {
    inner: blake3::Hasher,
}

impl DatasetHasher {
    /// The dataset bytes fed so far.
    pub closed spec fn absorbed(&self) -> Seq<u8> {
        blake3_absorbed(self.inner)
    }

    pub fn new() -> (h: Self)
        ensures
            h.absorbed() == Seq::<u8>::empty(),
    {
        DatasetHasher { inner: blake3_hasher_new() }
    }

    /// Feeds the next piece of the dataset.
    pub fn update(&mut self, chunk: &[u8])
        ensures
            final(self).absorbed() == old(self).absorbed() + chunk@,
    {
        blake3_hasher_update(&mut self.inner, chunk);
    }

    /// The BLAKE3 digest of everything fed so far, however it was split into
    /// pieces.
    pub fn finalize(&self) -> (r: [u8; 32])
        ensures
            r@ == blake3_digest(self.absorbed()),
    {
        blake3_hasher_finalize(&self.inner)
    }
}

/// The TPF2 payload: AES-256-GCM under the header's nonce, with the 62-byte
/// serialized header as associated data.
pub open spec fn tpf2_seal(key: Seq<u8>, h: Tpf2HeaderView, plaintext: Seq<u8>) -> Option<Seq<u8>> {
    if aes_gcm_accepts(plaintext.len(), 62) {
        Some(aes256gcm_seal(key, h.nonce, plaintext, h.encoding()))
    } else {
        None
    }
}

pub open spec fn tpf2_open(key: Seq<u8>, h: Tpf2HeaderView, ciphertext: Seq<u8>) -> Option<Seq<u8>> {
    aes256gcm_open(key, h.nonce, ciphertext, h.encoding())
}

/// Encrypts a TPF2 payload with AES-256-GCM, binding the header as AAD.
pub fn encrypt_payload(vault_key: &[u8], header: &Tpf2Header, plaintext: &[u8]) -> (r: Result<
    Vec<u8>,
    CryptoError,
>)
    requires
        vault_key@.len() == 32,
    ensures
        match tpf2_seal(vault_key@, header@, plaintext@) {
            Some(c) => r matches Ok(v) && v@ == c,
            None => r matches Err(CryptoError::AeadError),
        },
        r matches Ok(c) ==> tpf2_open(vault_key@, header@, c@) == Some(plaintext@),
        r matches Ok(c) ==> c@.len() == plaintext@.len() + 16,
        r matches Ok(c) ==> c@ == aes256gcm_seal(vault_key@, header.nonce@, plaintext@, header@.encoding()),
{
    let aad = header.as_bytes();
    match aes256gcm_encrypt(vault_key, header.nonce.as_slice(), plaintext, aad.as_slice()) {
        Ok(c) => Ok(c),
        Err(_) => Err(CryptoError::AeadError),
    }
}

/// Decrypts a TPF2 payload, failing closed if authentication fails.
pub fn decrypt_payload(vault_key: &[u8], header: &Tpf2Header, ciphertext: &[u8]) -> (r: Result<
    Vec<u8>,
    CryptoError,
>)
    requires
        vault_key@.len() == 32,
    ensures
        match tpf2_open(vault_key@, header@, ciphertext@) {
            Some(p) => r matches Ok(v) && v@ == p,
            None => r matches Err(CryptoError::AeadError),
        },
        r is Ok <==> aes256gcm_open(vault_key@, header.nonce@, ciphertext@, header@.encoding()) is Some,
        r matches Ok(p) ==> aes256gcm_open(vault_key@, header.nonce@, ciphertext@, header@.encoding())
            == Some(p@),
{
    let aad = header.as_bytes();
    match aes256gcm_decrypt(vault_key, header.nonce.as_slice(), ciphertext, aad.as_slice()) {
        Ok(p) => Ok(p),
        Err(_) => Err(CryptoError::AeadError),
    }
}

/// What encrypting a TPF3 payload yields: the header must serialize, and the
/// serialized header is the associated data.
pub open spec fn tpf3_encrypt_result(key: Seq<u8>, h: Tpf3HeaderView, plaintext: Seq<u8>) -> Result<
    Seq<u8>,
    CryptoError,
> {
    match h.serialized() {
        Err(e) => Err(CryptoError::FormatError(e)),
        Ok(hb) => match tpf3_seal(key, h, hb, plaintext) {
            Some(c) => Ok(c),
            None => Err(CryptoError::AeadError),
        },
    }
}

/// What decrypting a TPF3 payload yields.
pub open spec fn tpf3_decrypt_result(key: Seq<u8>, h: Tpf3HeaderView, ciphertext: Seq<u8>) -> Result<
    Seq<u8>,
    CryptoError,
> {
    match h.serialized() {
        Err(e) => Err(CryptoError::FormatError(e)),
        Ok(hb) => match tpf3_open(key, h, hb, ciphertext) {
            Some(p) => Ok(p),
            None => Err(CryptoError::AeadError),
        },
    }
}

/// Encrypting a `plaintext_len`-byte payload under header `h` stays clear of
/// the XChaCha20 keystream overrun, on which the cipher panics.
pub open spec fn tpf3_seal_in_range(h: Tpf3HeaderView, plaintext_len: int) -> bool {
    h.serialized() is Ok && h.cipher_suite == CipherSuite::XChaCha20Poly1305
        ==> !xchacha_overruns_keystream(plaintext_len)
}

/// Decrypting a `ciphertext_len`-byte payload under header `h` stays clear of
/// the XChaCha20 keystream overrun.
pub open spec fn tpf3_open_in_range(h: Tpf3HeaderView, ciphertext_len: int) -> bool {
    h.serialized() is Ok && h.cipher_suite == CipherSuite::XChaCha20Poly1305
        ==> !xchacha_overruns_keystream(ciphertext_len - 16)
}

/// Whether a payload of `len` bytes would overrun the XChaCha20 keystream
/// (where the cipher panics), for callers that must test before they call.
pub fn xchacha_keystream_overrun(len: usize) -> (r: bool)
    ensures
        r == xchacha_overruns_keystream(len as int),
{
    let n = len as u64;
    64 * (0xffff_ffffu64 - 1) < n && n < 64 * 0xffff_ffffu64
}

/// Relates an executable result to its mathematical counterpart: the same
/// variant, the same bytes, the same error.
pub open spec fn same_bytes_result(r: Result<Vec<u8>, CryptoError>, s: Result<Seq<u8>, CryptoError>) -> bool {
    match (r, s) {
        (Ok(v), Ok(b)) => v@ == b,
        (Err(e1), Err(e2)) => e1 == e2,
        _ => false,
    }
}

/// Encrypts a TPF3 payload with the header's cipher suite; the serialized
/// header is bound as AEAD associated data.
pub fn encrypt_tpf3_payload(content_key: &[u8], header: &Tpf3Header, plaintext: &[u8]) -> (r:
    Result<Vec<u8>, CryptoError>)
    requires
        header@.serialized() is Ok ==> content_key@.len() == 32,
        tpf3_seal_in_range(header@, plaintext@.len() as int),
    ensures
        same_bytes_result(r, tpf3_encrypt_result(content_key@, header@, plaintext@)),
        r matches Ok(c) ==> tpf3_decrypt_result(content_key@, header@, c@) == Ok::<
            Seq<u8>,
            CryptoError,
        >(plaintext@),
        r matches Ok(c) ==> c@.len() == plaintext@.len() + 16,
        r matches Ok(c) ==> header@.serialized() == Ok::<Seq<u8>, FormatError>(header@.encoding())
            && match header.cipher_suite {
            CipherSuite::Aes256Gcm => c@ == aes256gcm_seal(
                content_key@,
                header.nonce@,
                plaintext@,
                header@.encoding(),
            ),
            CipherSuite::XChaCha20Poly1305 => c@ == xchacha20poly1305_seal(
                content_key@,
                header.nonce@,
                plaintext@,
                header@.encoding(),
            ),
        },
{
    let header_bytes = match header.as_bytes() {
        Ok(b) => b,
        Err(e) => {
            return Err(CryptoError::FormatError(e));
        },
    };
    match header.cipher_suite {
        CipherSuite::Aes256Gcm => {
            match aes256gcm_encrypt(
                content_key,
                header.nonce.as_slice(),
                plaintext,
                header_bytes.as_slice(),
            ) {
                Ok(c) => Ok(c),
                Err(_) => Err(CryptoError::AeadError),
            }
        },
        CipherSuite::XChaCha20Poly1305 => {
            encrypt_tpf3_xchacha20poly1305(content_key, header, plaintext, header_bytes.as_slice())
        },
    }
}

/// Decrypts a TPF3 payload, failing closed if authentication fails.
pub fn decrypt_tpf3_payload(content_key: &[u8], header: &Tpf3Header, ciphertext: &[u8]) -> (r:
    Result<Vec<u8>, CryptoError>)
    requires
        header@.serialized() is Ok ==> content_key@.len() == 32,
        tpf3_open_in_range(header@, ciphertext@.len() as int),
    ensures
        same_bytes_result(r, tpf3_decrypt_result(content_key@, header@, ciphertext@)),
        r matches Ok(p) ==> header@.serialized() == Ok::<Seq<u8>, FormatError>(header@.encoding())
            && match header.cipher_suite {
            CipherSuite::Aes256Gcm => aes256gcm_open(
                content_key@,
                header.nonce@,
                ciphertext@,
                header@.encoding(),
            ) == Some(p@),
            CipherSuite::XChaCha20Poly1305 => xchacha20poly1305_open(
                content_key@,
                header.nonce@,
                ciphertext@,
                header@.encoding(),
            ) == Some(p@),
        },
{
    let header_bytes = match header.as_bytes() {
        Ok(b) => b,
        Err(e) => {
            return Err(CryptoError::FormatError(e));
        },
    };
    match header.cipher_suite {
        CipherSuite::Aes256Gcm => {
            match aes256gcm_decrypt(
                content_key,
                header.nonce.as_slice(),
                ciphertext,
                header_bytes.as_slice(),
            ) {
                Ok(p) => Ok(p),
                Err(_) => Err(CryptoError::AeadError),
            }
        },
        CipherSuite::XChaCha20Poly1305 => {
            decrypt_tpf3_xchacha20poly1305(content_key, header, ciphertext, header_bytes.as_slice())
        },
    }
}

fn encrypt_tpf3_xchacha20poly1305(
    content_key: &[u8],
    header: &Tpf3Header,
    plaintext: &[u8],
    header_bytes: &[u8],
) -> (r: Result<Vec<u8>, CryptoError>)
    requires
        content_key@.len() == 32,
        header@.nonce.len() == 24,
        !xchacha_overruns_keystream(plaintext@.len() as int),
    ensures
        match r {
            Ok(c) => xchacha_accepts(plaintext@.len()) && c@.len() == plaintext@.len() + 16
                && c@ == xchacha20poly1305_seal(
                content_key@,
                header@.nonce,
                plaintext@,
                header_bytes@,
            ) && xchacha20poly1305_open(content_key@, header@.nonce, c@, header_bytes@) == Some(
                plaintext@,
            ),
            Err(e) => !xchacha_accepts(plaintext@.len()) && e == CryptoError::AeadError,
        },
{
    match xchacha20poly1305_encrypt(content_key, header.nonce.as_slice(), plaintext, header_bytes) {
        Ok(c) => Ok(c),
        Err(_) => Err(CryptoError::AeadError),
    }
}

fn decrypt_tpf3_xchacha20poly1305(
    content_key: &[u8],
    header: &Tpf3Header,
    ciphertext: &[u8],
    header_bytes: &[u8],
) -> (r: Result<Vec<u8>, CryptoError>)
    requires
        content_key@.len() == 32,
        header@.nonce.len() == 24,
        !xchacha_overruns_keystream(ciphertext@.len() - 16),
    ensures
        match xchacha20poly1305_open(content_key@, header@.nonce, ciphertext@, header_bytes@) {
            Some(p) => r matches Ok(v) && v@ == p,
            None => r matches Err(CryptoError::AeadError),
        },
{
    match xchacha20poly1305_decrypt(content_key, header.nonce.as_slice(), ciphertext, header_bytes) {
        Ok(p) => Ok(p),
        Err(_) => Err(CryptoError::AeadError),
    }
}

} // verus!
