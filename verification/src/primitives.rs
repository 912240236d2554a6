//! Trusted items: the outside cryptographic crates and the few std functions
//! without a vstd specification. Every contract here is believed, not proved;
//! each doc comment says what it claims of the outside code.
use aes_gcm::aead::{Aead, KeyInit, Payload};
use rand::RngCore;
use vstd::prelude::*;
use zeroize::Zeroize;

verus! {

/* ------------------------------------------------------------------------ */
/* Outside types                                                            */
/* ------------------------------------------------------------------------ */

/// `std::io::Error`, carried opaquely in `CryptoError::IoError`.
#[verifier::external_type_specification]
#[verifier::external_body]
pub struct ExIoError(std::io::Error);

/// `argon2::Error`, the error of Argon2 parameter checks and hashing.
#[verifier::external_type_specification]
#[verifier::external_body]
pub struct ExArgon2Error(argon2::Error);

/// `hkdf::InvalidLength`, returned when the requested output is too long.
#[verifier::external_body]
#[verifier::external_type_specification]
pub struct ExHkdfInvalidLength(hkdf::InvalidLength);

/// `aead::Error` (re-exported by `aes_gcm` and `chacha20poly1305`), the opaque
/// AEAD failure.
#[verifier::external_type_specification]
#[verifier::external_body]
pub struct ExAeadError(aes_gcm::aead::Error);

/* ------------------------------------------------------------------------ */
/* Argon2id                                                                 */
/* ------------------------------------------------------------------------ */

/// The Argon2id (version 0x13) output of `out_len` bytes for password `ikm`,
/// salt `salt` and costs `m_cost` (KiB), `t_cost`, `p_cost`.
pub uninterp spec fn argon2id_root_key(
    ikm: Seq<u8>,
    salt: Seq<u8>,
    m_cost: u32,
    t_cost: u32,
    p_cost: u32,
    out_len: nat,
) -> Seq<u8>;

/// The inputs `argon2` 0.5 accepts: `Params::new` wants
/// `m_cost >= 8`, `m_cost >= 8 * p_cost`, `t_cost >= 1`, `1 <= p_cost <= 0xFFFFFF`
/// and `4 <= out_len <= 0xFFFFFFFF`; `hash_password_into` wants a password of at
/// most `0xFFFFFFFF` bytes and a salt of 8 to `0xFFFFFFFF` bytes.
pub open spec fn argon2_accepts(
    ikm_len: nat,
    salt_len: nat,
    m_cost: u32,
    t_cost: u32,
    p_cost: u32,
    out_len: nat,
) -> bool {
    &&& m_cost >= 8
    &&& m_cost >= 8 * p_cost
    &&& t_cost >= 1
    &&& 1 <= p_cost <= 0xff_ffff
    &&& 4 <= out_len <= 0xffff_ffff
    &&& ikm_len <= 0xffff_ffff
    &&& 8 <= salt_len <= 0xffff_ffff
}

/// Calls `argon2::Params::new(m_cost, t_cost, p_cost, Some(out_len))`, then
/// `Argon2::new(Argon2id, V0x13, params).hash_password_into(ikm, salt, out)`.
/// Claims: it succeeds exactly on the inputs `argon2_accepts` describes (the
/// checks in the crate's source), and then returns `out_len` bytes, the
/// `argon2id_root_key` of its arguments. `p_cost` is bounded because
/// `Params::new` computes `p_cost * 8` in `u32`. Not claimed: that the
/// allocation of `m_cost` KiB of working memory succeeds on this machine.
#[verifier::external_body]
pub(crate) fn argon2id_hash(
    ikm: &[u8],
    salt: &[u8],
    m_cost: u32,
    t_cost: u32,
    p_cost: u32,
    out_len: usize,
) -> (r: Result<Vec<u8>, argon2::Error>)
    requires
        p_cost <= 0x1fff_ffff,
    ensures
        r is Ok <==> argon2_accepts(ikm@.len(), salt@.len(), m_cost, t_cost, p_cost, out_len as nat),
        r matches Ok(k) ==> k@ == argon2id_root_key(
            ikm@,
            salt@,
            m_cost,
            t_cost,
            p_cost,
            out_len as nat,
        ) && k@.len() == out_len,
{
    let params = argon2::Params::new(m_cost, t_cost, p_cost, Some(out_len))?;
    let ctx = argon2::Argon2::new(argon2::Algorithm::Argon2id, argon2::Version::V0x13, params);
    let mut out = vec![0u8; out_len];
    ctx.hash_password_into(ikm, salt, &mut out)?;
    Ok(out)
}

/* ------------------------------------------------------------------------ */
/* HKDF-SHA256                                                              */
/* ------------------------------------------------------------------------ */

/// The HKDF-SHA256 (RFC 5869) output of `len` bytes: extract with `salt` and
/// `ikm`, expand with `info`.
pub uninterp spec fn hkdf_sha256(salt: Seq<u8>, ikm: Seq<u8>, info: Seq<u8>, len: nat) -> Seq<u8>;

/// Calls `Hkdf::<Sha256>::new(Some(salt), ikm)` and `expand(info, okm)` with an
/// `out_len`-byte buffer. Claims: `expand` fails exactly when `out_len` exceeds
/// 255 * 32 bytes (its only check), and otherwise fills `out_len` bytes, the
/// `hkdf_sha256` of its arguments.
#[verifier::external_body]
pub(crate) fn hkdf_sha256_expand(salt: &[u8], ikm: &[u8], info: &[u8], out_len: usize) -> (r:
    Result<Vec<u8>, hkdf::InvalidLength>)
    ensures
        r is Ok <==> out_len <= 8160,
        r matches Ok(k) ==> k@ == hkdf_sha256(salt@, ikm@, info@, out_len as nat) && k@.len()
            == out_len,
{
    let hk = hkdf::Hkdf::<sha2::Sha256>::new(Some(salt), ikm);
    let mut okm = vec![0u8; out_len];
    hk.expand(info, &mut okm)?;
    Ok(okm)
}

/* ------------------------------------------------------------------------ */
/* AES-256-GCM                                                              */
/* ------------------------------------------------------------------------ */

/// AES-256-GCM ciphertext with the 16-byte tag appended.
pub uninterp spec fn aes256gcm_seal(key: Seq<u8>, nonce: Seq<u8>, msg: Seq<u8>, aad: Seq<u8>) -> Seq<
    u8,
>;

/// AES-256-GCM decryption of a tag-suffixed ciphertext: the plaintext, or `None`
/// when the ciphertext is too short or too long or the tag does not verify.
pub uninterp spec fn aes256gcm_open(key: Seq<u8>, nonce: Seq<u8>, ct: Seq<u8>, aad: Seq<u8>) -> Option<
    Seq<u8>,
>;

/// The message and associated-data sizes `aes-gcm` 0.10 encrypts (`P_MAX` and
/// `A_MAX`, both 2^36 bytes).
pub open spec fn aes_gcm_accepts(msg_len: nat, aad_len: nat) -> bool {
    msg_len <= 0x10_0000_0000 && aad_len <= 0x10_0000_0000
}

/// Calls `Aes256Gcm::new(key).encrypt(nonce, Payload { msg, aad })`. `key` and
/// `nonce` must have the sizes `from_slice` asserts (32 and 12 bytes).
/// Claims: it fails exactly when the message or the associated data exceeds
/// 2^36 bytes; otherwise the result is the `aes256gcm_seal` of its arguments,
/// 16 bytes longer than the message, and decrypting it with the same key,
/// nonce and associated data gives the message back (AEAD correctness).
#[verifier::external_body]
pub(crate) fn aes256gcm_encrypt(key: &[u8], nonce: &[u8], msg: &[u8], aad: &[u8]) -> (r: Result<
    Vec<u8>,
    aes_gcm::aead::Error,
>)
    requires
        key@.len() == 32,
        nonce@.len() == 12,
    ensures
        r is Ok <==> aes_gcm_accepts(msg@.len(), aad@.len()),
        r matches Ok(c) ==> c@ == aes256gcm_seal(key@, nonce@, msg@, aad@) && c@.len() == msg@.len()
            + 16,
        r matches Ok(c) ==> aes256gcm_open(key@, nonce@, c@, aad@) == Some(msg@),
{
    let cipher = aes_gcm::Aes256Gcm::new(aes_gcm::Key::<aes_gcm::Aes256Gcm>::from_slice(key));
    cipher.encrypt(aes_gcm::Nonce::from_slice(nonce), Payload { msg, aad })
}

/// Calls `Aes256Gcm::new(key).decrypt(nonce, Payload { msg: ct, aad })`.
/// Claims: it succeeds exactly when `aes256gcm_open` gives a plaintext, and
/// returns that plaintext.
#[verifier::external_body]
pub(crate) fn aes256gcm_decrypt(key: &[u8], nonce: &[u8], ct: &[u8], aad: &[u8]) -> (r: Result<
    Vec<u8>,
    aes_gcm::aead::Error,
>)
    requires
        key@.len() == 32,
        nonce@.len() == 12,
    ensures
        r is Ok <==> aes256gcm_open(key@, nonce@, ct@, aad@) is Some,
        r matches Ok(p) ==> aes256gcm_open(key@, nonce@, ct@, aad@) == Some(p@),
{
    let cipher = aes_gcm::Aes256Gcm::new(aes_gcm::Key::<aes_gcm::Aes256Gcm>::from_slice(key));
    cipher.decrypt(aes_gcm::Nonce::from_slice(nonce), Payload { msg: ct, aad })
}

/* ------------------------------------------------------------------------ */
/* XChaCha20-Poly1305                                                       */
/* ------------------------------------------------------------------------ */

/// XChaCha20-Poly1305 ciphertext with the 16-byte tag appended.
pub uninterp spec fn xchacha20poly1305_seal(
    key: Seq<u8>,
    nonce: Seq<u8>,
    msg: Seq<u8>,
    aad: Seq<u8>,
) -> Seq<u8>;

/// XChaCha20-Poly1305 decryption of a tag-suffixed ciphertext, or `None` when
/// it is malformed or does not authenticate.
pub uninterp spec fn xchacha20poly1305_open(
    key: Seq<u8>,
    nonce: Seq<u8>,
    ct: Seq<u8>,
    aad: Seq<u8>,
) -> Option<Seq<u8>>;

/// The message sizes `chacha20poly1305` 0.10 encrypts: fewer than `u32::MAX`
/// whole 64-byte blocks.
pub open spec fn xchacha_accepts(msg_len: nat) -> bool {
    msg_len / 64 < 0xffff_ffff
}

/// The message sizes on which `chacha20poly1305` 0.10 panics: the size check
/// above passes, but the message needs more keystream blocks than the
/// `u32::MAX - 1` left after the block that keys Poly1305, and
/// `apply_keystream` unwraps the overrun error.
pub open spec fn xchacha_overruns_keystream(msg_len: int) -> bool {
    64 * (0xffff_ffff - 1) < msg_len < 64 * 0xffff_ffff
}

/// Calls `XChaCha20Poly1305::new(key).encrypt(nonce, Payload { msg, aad })`.
/// `key` and `nonce` must have the sizes `from_slice` asserts (32 and 24 bytes),
/// and the message must not overrun the keystream (the call panics there).
/// Claims: it fails exactly when the message has `u32::MAX` or more 64-byte
/// blocks; otherwise the result is the `xchacha20poly1305_seal` of its
/// arguments, 16 bytes longer than the message, and decrypting it with the same
/// key, nonce and associated data gives the message back.
#[verifier::external_body]
pub(crate) fn xchacha20poly1305_encrypt(key: &[u8], nonce: &[u8], msg: &[u8], aad: &[u8]) -> (r:
    Result<Vec<u8>, aes_gcm::aead::Error>)
    requires
        key@.len() == 32,
        nonce@.len() == 24,
        !xchacha_overruns_keystream(msg@.len() as int),
    ensures
        r is Ok <==> xchacha_accepts(msg@.len()),
        r matches Ok(c) ==> c@ == xchacha20poly1305_seal(key@, nonce@, msg@, aad@) && c@.len()
            == msg@.len() + 16,
        r matches Ok(c) ==> xchacha20poly1305_open(key@, nonce@, c@, aad@) == Some(msg@),
{
    let cipher = chacha20poly1305::XChaCha20Poly1305::new(chacha20poly1305::Key::from_slice(key));
    cipher.encrypt(chacha20poly1305::XNonce::from_slice(nonce), Payload { msg, aad })
}

/// Calls `XChaCha20Poly1305::new(key).decrypt(nonce, Payload { msg: ct, aad })`.
/// The plaintext size (the ciphertext less its 16-byte tag) must not overrun
/// the keystream: the call panics there once the tag has verified. Claims: it succeeds exactly when `xchacha20poly1305_open` gives a plaintext,
/// and returns that plaintext.
#[verifier::external_body]
pub(crate) fn xchacha20poly1305_decrypt(key: &[u8], nonce: &[u8], ct: &[u8], aad: &[u8]) -> (r:
    Result<Vec<u8>, aes_gcm::aead::Error>)
    requires
        key@.len() == 32,
        nonce@.len() == 24,
        !xchacha_overruns_keystream(ct@.len() - 16),
    ensures
        r is Ok <==> xchacha20poly1305_open(key@, nonce@, ct@, aad@) is Some,
        r matches Ok(p) ==> xchacha20poly1305_open(key@, nonce@, ct@, aad@) == Some(p@),
{
    let cipher = chacha20poly1305::XChaCha20Poly1305::new(chacha20poly1305::Key::from_slice(key));
    cipher.decrypt(chacha20poly1305::XNonce::from_slice(nonce), Payload { msg: ct, aad })
}

/* ------------------------------------------------------------------------ */
/* BLAKE3, randomness, zeroization                                          */
/* ------------------------------------------------------------------------ */

/// The 32-byte BLAKE3 digest of `data` (what `blake3::hash` returns).
pub uninterp spec fn blake3_digest(data: Seq<u8>) -> Seq<u8>;

/// `blake3::Hasher`, the incremental BLAKE3 state.
#[verifier::external_type_specification]
#[verifier::external_body]
pub struct ExBlake3Hasher(blake3::Hasher);

/// The bytes a `blake3::Hasher` has been fed since it was created.
pub uninterp spec fn blake3_absorbed(h: blake3::Hasher) -> Seq<u8>;

/// Calls `blake3::Hasher::new()`. Claims: the new state has absorbed nothing.
#[verifier::external_body]
pub(crate) fn blake3_hasher_new() -> (h: blake3::Hasher)
    ensures
        blake3_absorbed(h) == Seq::<u8>::empty(),
{
    blake3::Hasher::new()
}

/// Calls `Hasher::update(data)`. Claims: the state has absorbed `data` after
/// what it held before. (`update` asserts only for hashers given an input
/// offset through the `hazmat` API, which this crate never uses.)
#[verifier::external_body]
pub(crate) fn blake3_hasher_update(h: &mut blake3::Hasher, data: &[u8])
    ensures
        blake3_absorbed(*final(h)) == blake3_absorbed(*old(h)) + data@,
{
    h.update(data);
}

/// Calls `Hasher::finalize()`. Claims, as the crate documents, that the result
/// equals `blake3::hash` of everything absorbed so far.
#[verifier::external_body]
pub(crate) fn blake3_hasher_finalize(h: &blake3::Hasher) -> (r: [u8; 32])
    ensures
        r@ == blake3_digest(blake3_absorbed(*h)),
{
    *h.finalize().as_bytes()
}

/// Calls `rand::thread_rng().fill_bytes` on the buffer. Claims only that the
/// length is unchanged: the bytes are random.
#[verifier::external_body]
pub(crate) fn fill_random(buf: &mut Vec<u8>)
    ensures
        final(buf)@.len() == old(buf)@.len(),
{
    rand::thread_rng().fill_bytes(buf.as_mut_slice())
}

/// Calls `Zeroize::zeroize` on the vector, which overwrites its bytes (and
/// spare capacity) with zeros and then clears it. Claims: the vector is empty.
#[verifier::external_body]
pub(crate) fn wipe_bytes(buf: &mut Vec<u8>)
    ensures
        final(buf)@.len() == 0,
{
    buf.zeroize()
}

} // verus!
