//! Laws of the container formats: serializing then parsing gives the header
//! back, and every header a parser accepts re-serializes to the bytes it came from.
use vstd::bytes::*;
use vstd::prelude::*;

use crate::format::{
    parse_vault, tpf2_magic, tpf3_magic, ParsedVaultHeaderView,
    cipher_suite_from_id, cipher_suite_id, decode_tpf2, decode_tpf3, key_wrap_mode_from_id,
    key_wrap_mode_id, parse_tpf2, parse_tpf3, tpf3_kdf_from_id, tpf3_kdf_id,
    tpf3_kem_ct_len, tpf3_nonce_len, tpf3_tpm_policy_len, tpf3_wrapped_key_len, CipherSuite,
    FormatError, KeyWrapMode, Tpf2HeaderView, Tpf3HeaderView, Tpf3Kdf,
};

verus! {

/// A supported TPF2 header, serialized and followed by any payload, parses back
/// to the same header.
pub proof fn lemma_tpf2_roundtrip(v: Tpf2HeaderView, rest: Seq<u8>)
    requires
        v.supported(),
    ensures
        parse_tpf2(v.encoding() + rest) == Ok::<Tpf2HeaderView, FormatError>(v),
{
    lemma_auto_spec_u32_to_from_le_bytes();
    lemma_auto_spec_u16_to_from_le_bytes();
    let d = v.encoding() + rest;
    assert(d.subrange(0, 4) =~= v.magic);
    assert(d.subrange(8, 12) =~= spec_u32_to_le_bytes(v.kdf_m));
    assert(d.subrange(12, 14) =~= spec_u16_to_le_bytes(v.kdf_t));
    assert(d.subrange(16, 18) =~= v.reserved);
    assert(d.subrange(18, 50) =~= v.os_salt);
    assert(d.subrange(50, 62) =~= v.nonce);
    assert(decode_tpf2(d) == v);
}

/// Whatever a TPF2 parse accepts is a supported header whose serialization is
/// exactly the first 62 bytes of the input.
pub proof fn lemma_tpf2_parse_reencodes(data: Seq<u8>)
    requires
        parse_tpf2(data) is Ok,
    ensures
        parse_tpf2(data)->Ok_0.supported(),
        parse_tpf2(data)->Ok_0.encoding() == data.subrange(0, 62),
{
    lemma_auto_spec_u32_to_from_le_bytes();
    lemma_auto_spec_u16_to_from_le_bytes();
    let v = decode_tpf2(data);
    assert(v.encoding() =~= data.subrange(0, 62));
}


/// Serializing a TPF3 header produces exactly `body_offset` bytes.
pub proof fn lemma_tpf3_encoding_len(v: Tpf3HeaderView)
    requires
        v.well_sized(),
    ensures
        v.prelude().len() == 56,
        v.encoding().len() == v.body_offset(),
{
    lemma_auto_spec_u32_to_from_le_bytes();
    lemma_auto_spec_u16_to_from_le_bytes();
}

/// A supported TPF3 header, serialized and followed by any payload, parses back
/// to the same header.
pub proof fn lemma_tpf3_roundtrip(v: Tpf3HeaderView, rest: Seq<u8>)
    requires
        v.supported(),
    ensures
        parse_tpf3(v.encoding() + rest) == Ok::<Tpf3HeaderView, FormatError>(v),
{
    lemma_auto_spec_u32_to_from_le_bytes();
    lemma_auto_spec_u16_to_from_le_bytes();
    lemma_tpf3_encoding_len(v);
    lemma_cipher_suite_id_roundtrip(v.cipher_suite);
    lemma_tpf3_kdf_id_roundtrip(v.kdf);
    lemma_key_wrap_mode_id_roundtrip(v.wrap_mode);
    let d = v.encoding() + rest;
    let p = v.prelude();
    assert(d.subrange(0, 56) =~= p);
    assert(d.subrange(0, 4) =~= v.magic);
    assert(d.subrange(5, 7) =~= spec_u16_to_le_bytes(v.flags));
    assert(d.subrange(11, 13) =~= spec_u16_to_le_bytes(v.wrapped_key.len() as u16));
    assert(d.subrange(13, 15) =~= spec_u16_to_le_bytes(v.kem_ciphertext.len() as u16));
    assert(d.subrange(15, 17) =~= spec_u16_to_le_bytes(v.tpm_policy.len() as u16));
    assert(d.subrange(17, 21) =~= spec_u32_to_le_bytes(v.kdf_m));
    assert(d.subrange(21, 23) =~= spec_u16_to_le_bytes(v.kdf_t));
    assert(d.subrange(24, 56) =~= v.os_salt);
    assert(d[10] == p[10]);
    assert(tpf3_nonce_len(d) == v.nonce.len());
    assert(tpf3_wrapped_key_len(d) == v.wrapped_key.len());
    assert(tpf3_kem_ct_len(d) == v.kem_ciphertext.len());
    assert(tpf3_tpm_policy_len(d) == v.tpm_policy.len());
    let a: int = 56;
    let b = a + v.nonce.len();
    let c = b + v.wrapped_key.len();
    let e = c + v.kem_ciphertext.len();
    let f = e + v.tpm_policy.len();
    assert(d.subrange(a, b) =~= v.nonce);
    assert(d.subrange(b, c) =~= v.wrapped_key);
    assert(d.subrange(c, e) =~= v.kem_ciphertext);
    assert(d.subrange(e, f) =~= v.tpm_policy);
    assert(decode_tpf3(d) == v);
}

/// Whatever a TPF3 parse accepts is a supported header whose serialization is
/// exactly the first `body_offset` bytes of the input.
pub proof fn lemma_tpf3_parse_reencodes(data: Seq<u8>)
    requires
        parse_tpf3(data) is Ok,
    ensures
        parse_tpf3(data)->Ok_0.supported(),
        parse_tpf3(data)->Ok_0.body_offset() <= data.len(),
        parse_tpf3(data)->Ok_0.serialized() == Ok::<Seq<u8>, FormatError>(
            data.subrange(0, parse_tpf3(data)->Ok_0.body_offset()),
        ),
        parse_tpf3(data)->Ok_0.encoding() == data.subrange(
            0,
            parse_tpf3(data)->Ok_0.body_offset(),
        ),
{
    lemma_auto_spec_u32_to_from_le_bytes();
    lemma_auto_spec_u16_to_from_le_bytes();
    let v = decode_tpf3(data);
    lemma_tpf3_encoding_len(v);
    let c = cipher_suite_from_id(data[7])->Some_0;
    let k = tpf3_kdf_from_id(data[8])->Some_0;
    let w = key_wrap_mode_from_id(data[9])->Some_0;
    lemma_cipher_suite_from_id_inverse(data[7]);
    lemma_tpf3_kdf_from_id_inverse(data[8]);
    lemma_key_wrap_mode_from_id_inverse(data[9]);
    assert(spec_u16_to_le_bytes(spec_u16_from_le_bytes(data.subrange(11, 13))) == data.subrange(11, 13));
    assert(spec_u16_to_le_bytes(spec_u16_from_le_bytes(data.subrange(13, 15))) == data.subrange(13, 15));
    assert(spec_u16_to_le_bytes(spec_u16_from_le_bytes(data.subrange(15, 17))) == data.subrange(15, 17));
    assert(v.prelude() =~= data.subrange(0, 56));
    assert(v.encoding() =~= data.subrange(0, v.body_offset()));
}

/// Identifier bytes and cipher suites correspond one to one.
pub proof fn lemma_cipher_suite_id_roundtrip(c: CipherSuite)
    ensures
        cipher_suite_from_id(cipher_suite_id(c)) == Some(c),
{
}

pub proof fn lemma_cipher_suite_from_id_inverse(b: u8)
    ensures
        cipher_suite_from_id(b) matches Some(c) ==> cipher_suite_id(c) == b,
{
}

/// Identifier bytes and TPF3 KDFs correspond one to one.
pub proof fn lemma_tpf3_kdf_id_roundtrip(k: Tpf3Kdf)
    ensures
        tpf3_kdf_from_id(tpf3_kdf_id(k)) == Some(k),
{
}

pub proof fn lemma_tpf3_kdf_from_id_inverse(b: u8)
    ensures
        tpf3_kdf_from_id(b) matches Some(k) ==> tpf3_kdf_id(k) == b,
{
}

/// Identifier bytes and wrap modes correspond one to one.
pub proof fn lemma_key_wrap_mode_id_roundtrip(w: KeyWrapMode)
    ensures
        key_wrap_mode_from_id(key_wrap_mode_id(w)) == Some(w),
{
}

pub proof fn lemma_key_wrap_mode_from_id_inverse(b: u8)
    ensures
        key_wrap_mode_from_id(b) matches Some(w) ==> key_wrap_mode_id(w) == b,
{
}

/// The first four bytes choose the format: a serialized supported header of
/// either kind, followed by any payload, parses as that kind of header.
pub proof fn lemma_parse_vault_dispatch(v2: Tpf2HeaderView, v3: Tpf3HeaderView, rest: Seq<u8>)
    ensures
        v2.supported() ==> parse_vault(v2.encoding() + rest) == Ok::<
            ParsedVaultHeaderView,
            FormatError,
        >(ParsedVaultHeaderView::Tpf2(v2)),
        v3.supported() ==> parse_vault(v3.encoding() + rest) == Ok::<
            ParsedVaultHeaderView,
            FormatError,
        >(ParsedVaultHeaderView::Tpf3(v3)),
{
    if v2.supported() {
        lemma_tpf2_roundtrip(v2, rest);
        assert((v2.encoding() + rest).subrange(0, 4) =~= tpf2_magic());
    }
    if v3.supported() {
        lemma_tpf3_roundtrip(v3, rest);
        lemma_tpf3_encoding_len(v3);
        assert((v3.encoding() + rest).subrange(0, 4) =~= tpf3_magic());
        assert(tpf3_magic() != tpf2_magic()) by {
            assert(tpf3_magic()[3] != tpf2_magic()[3]);
        }
    }
}

/// The TPF3 header layout, stated on literal offsets: magic at 0..4, version
/// at 4, flags (u16 LE) at 5..7, cipher id (1 AES-256-GCM, 2 XChaCha20-Poly1305)
/// at 7, KDF id 1 at 8, wrap mode (0 direct, 1 TPM, 2 ML-KEM) at 9, the nonce
/// length at 10, then the u16 LE lengths of the wrapped key (11..13), the KEM
/// ciphertext (13..15) and the TPM policy (15..17), `kdf_m` (u32 LE) at 17..21,
/// `kdf_t` (u16 LE) at 21..23, `kdf_p` at 23, the salt at 24..56, and the four
/// blobs in that order from 56 on.
pub proof fn lemma_tpf3_encoding_layout(v: Tpf3HeaderView)
    requires
        v.well_sized(),
    ensures
        ({
            let e = v.encoding();
            let b = 56int + v.nonce.len();
            let c = b + v.wrapped_key.len();
            let d = c + v.kem_ciphertext.len();
            &&& e.len() == d + v.tpm_policy.len()
            &&& e.subrange(0, 4) == v.magic
            &&& e[4] == v.version
            &&& e.subrange(5, 7) == spec_u16_to_le_bytes(v.flags)
            &&& e[7] == (match v.cipher_suite {
                CipherSuite::Aes256Gcm => 1u8,
                CipherSuite::XChaCha20Poly1305 => 2u8,
            })
            &&& e[8] == 1u8
            &&& e[9] == (match v.wrap_mode {
                KeyWrapMode::Direct => 0u8,
                KeyWrapMode::TpmWrapped => 1u8,
                KeyWrapMode::MlKem768 => 2u8,
            })
            &&& e[10] == v.nonce.len() as u8
            &&& e.subrange(11, 13) == spec_u16_to_le_bytes(v.wrapped_key.len() as u16)
            &&& e.subrange(13, 15) == spec_u16_to_le_bytes(v.kem_ciphertext.len() as u16)
            &&& e.subrange(15, 17) == spec_u16_to_le_bytes(v.tpm_policy.len() as u16)
            &&& e.subrange(17, 21) == spec_u32_to_le_bytes(v.kdf_m)
            &&& e.subrange(21, 23) == spec_u16_to_le_bytes(v.kdf_t)
            &&& e[23] == v.kdf_p
            &&& e.subrange(24, 56) == v.os_salt
            &&& e.subrange(56, b) == v.nonce
            &&& e.subrange(b, c) == v.wrapped_key
            &&& e.subrange(c, d) == v.kem_ciphertext
            &&& e.subrange(d, d + v.tpm_policy.len()) == v.tpm_policy
        }),
{
    lemma_auto_spec_u32_to_from_le_bytes();
    lemma_auto_spec_u16_to_from_le_bytes();
    let e = v.encoding();
    let b = 56int + v.nonce.len();
    let c = b + v.wrapped_key.len();
    let d = c + v.kem_ciphertext.len();
    assert(e.subrange(0, 4) =~= v.magic);
    assert(e.subrange(5, 7) =~= spec_u16_to_le_bytes(v.flags));
    assert(e.subrange(11, 13) =~= spec_u16_to_le_bytes(v.wrapped_key.len() as u16));
    assert(e.subrange(13, 15) =~= spec_u16_to_le_bytes(v.kem_ciphertext.len() as u16));
    assert(e.subrange(15, 17) =~= spec_u16_to_le_bytes(v.tpm_policy.len() as u16));
    assert(e.subrange(17, 21) =~= spec_u32_to_le_bytes(v.kdf_m));
    assert(e.subrange(21, 23) =~= spec_u16_to_le_bytes(v.kdf_t));
    assert(e.subrange(24, 56) =~= v.os_salt);
    assert(e.subrange(56, b) =~= v.nonce);
    assert(e.subrange(b, c) =~= v.wrapped_key);
    assert(e.subrange(c, d) =~= v.kem_ciphertext);
    assert(e.subrange(d, d + v.tpm_policy.len()) =~= v.tpm_policy);
}

/// What a TPF3 parse reads, stated on literal offsets: the blob lengths come
/// from byte 10 and the u16 LE fields at 11..13 (wrapped key), 13..15 (KEM
/// ciphertext) and 15..17 (TPM policy), and the blobs follow the 56-byte
/// prelude in that order.
pub proof fn lemma_tpf3_parse_layout(data: Seq<u8>)
    requires
        parse_tpf3(data) is Ok,
    ensures
        ({
            let h = parse_tpf3(data)->Ok_0;
            let n = data[10] as int;
            let w = spec_u16_from_le_bytes(data.subrange(11, 13)) as int;
            let k = spec_u16_from_le_bytes(data.subrange(13, 15)) as int;
            let t = spec_u16_from_le_bytes(data.subrange(15, 17)) as int;
            &&& data.len() >= 56 + n + w + k + t
            &&& h.magic == data.subrange(0, 4)
            &&& h.version == data[4]
            &&& h.flags == spec_u16_from_le_bytes(data.subrange(5, 7))
            &&& (data[7] == 1u8 ==> h.cipher_suite == CipherSuite::Aes256Gcm)
            &&& (data[7] == 2u8 ==> h.cipher_suite == CipherSuite::XChaCha20Poly1305)
            &&& (data[9] == 0u8 ==> h.wrap_mode == KeyWrapMode::Direct)
            &&& (data[9] == 1u8 ==> h.wrap_mode == KeyWrapMode::TpmWrapped)
            &&& (data[9] == 2u8 ==> h.wrap_mode == KeyWrapMode::MlKem768)
            &&& h.kdf_m == spec_u32_from_le_bytes(data.subrange(17, 21))
            &&& h.kdf_t == spec_u16_from_le_bytes(data.subrange(21, 23))
            &&& h.kdf_p == data[23]
            &&& h.os_salt == data.subrange(24, 56)
            &&& h.nonce == data.subrange(56, 56 + n)
            &&& h.wrapped_key == data.subrange(56 + n, 56 + n + w)
            &&& h.kem_ciphertext == data.subrange(56 + n + w, 56 + n + w + k)
            &&& h.tpm_policy == data.subrange(56 + n + w + k, 56 + n + w + k + t)
        }),
{
}

/// The TPF2 header layout, stated on literal offsets: magic at 0..4, version
/// at 4, flags at 5, algorithm id at 6, KDF id at 7, `kdf_m` (u32 LE) at
/// 8..12, `kdf_t` (u16 LE) at 12..14, `kdf_p` at 14, the TPM flag at 15, the
/// reserved bytes at 16..18, the salt at 18..50 and the nonce at 50..62.
pub proof fn lemma_tpf2_encoding_layout(v: Tpf2HeaderView)
    requires
        v.well_sized(),
    ensures
        ({
            let e = v.encoding();
            &&& e.len() == 62
            &&& e.subrange(0, 4) == v.magic
            &&& e[4] == v.version
            &&& e[5] == v.flags
            &&& e[6] == v.alg_id
            &&& e[7] == v.kdf_id
            &&& e.subrange(8, 12) == spec_u32_to_le_bytes(v.kdf_m)
            &&& e.subrange(12, 14) == spec_u16_to_le_bytes(v.kdf_t)
            &&& e[14] == v.kdf_p
            &&& e[15] == v.tpm_flag
            &&& e.subrange(16, 18) == v.reserved
            &&& e.subrange(18, 50) == v.os_salt
            &&& e.subrange(50, 62) == v.nonce
        }),
{
    lemma_auto_spec_u32_to_from_le_bytes();
    lemma_auto_spec_u16_to_from_le_bytes();
    let e = v.encoding();
    assert(e.subrange(0, 4) =~= v.magic);
    assert(e.subrange(8, 12) =~= spec_u32_to_le_bytes(v.kdf_m));
    assert(e.subrange(12, 14) =~= spec_u16_to_le_bytes(v.kdf_t));
    assert(e.subrange(16, 18) =~= v.reserved);
    assert(e.subrange(18, 50) =~= v.os_salt);
    assert(e.subrange(50, 62) =~= v.nonce);
}

/// What a TPF2 parse reads, stated on literal offsets.
pub proof fn lemma_tpf2_parse_layout(data: Seq<u8>)
    requires
        parse_tpf2(data) is Ok,
    ensures
        ({
            let h = parse_tpf2(data)->Ok_0;
            &&& data.len() >= 62
            &&& h.magic == data.subrange(0, 4)
            &&& h.version == data[4]
            &&& h.flags == data[5]
            &&& h.alg_id == data[6]
            &&& h.kdf_id == data[7]
            &&& h.kdf_m == spec_u32_from_le_bytes(data.subrange(8, 12))
            &&& h.kdf_t == spec_u16_from_le_bytes(data.subrange(12, 14))
            &&& h.kdf_p == data[14]
            &&& h.tpm_flag == data[15]
            &&& h.reserved == data.subrange(16, 18)
            &&& h.os_salt == data.subrange(18, 50)
            &&& h.nonce == data.subrange(50, 62)
        }),
{
}

/// Which TPF2 headers a reader accepts, and with which error it refuses the
/// others, checked in this order: at least 62 bytes, magic `TPF2`, version 1
/// or 2, algorithm id 0 or 1, KDF id 0 or 1.
pub proof fn lemma_tpf2_parse_acceptance(data: Seq<u8>)
    ensures
        data.len() < 62 ==> parse_tpf2(data) == Err::<Tpf2HeaderView, FormatError>(
            FormatError::HeaderTooShort,
        ),
        data.len() >= 62 && data.subrange(0, 4) != seq![0x54u8, 0x50u8, 0x46u8, 0x32u8]
            ==> parse_tpf2(data) == Err::<Tpf2HeaderView, FormatError>(FormatError::InvalidMagic),
        data.len() >= 62 && data.subrange(0, 4) == seq![0x54u8, 0x50u8, 0x46u8, 0x32u8] ==> {
            &&& data[4] != 1u8 && data[4] != 2u8 ==> parse_tpf2(data) == Err::<
                Tpf2HeaderView,
                FormatError,
            >(FormatError::UnsupportedVersion(data[4]))
            &&& (data[4] == 1u8 || data[4] == 2u8) && data[6] != 0u8 && data[6] != 1u8
                ==> parse_tpf2(data) == Err::<Tpf2HeaderView, FormatError>(
                FormatError::UnsupportedAlgorithm(data[6]),
            )
            &&& (data[4] == 1u8 || data[4] == 2u8) && (data[6] == 0u8 || data[6] == 1u8)
                && data[7] != 0u8 && data[7] != 1u8 ==> parse_tpf2(data) == Err::<
                Tpf2HeaderView,
                FormatError,
            >(FormatError::UnsupportedKdf(data[7]))
            &&& (data[4] == 1u8 || data[4] == 2u8) && (data[6] == 0u8 || data[6] == 1u8) && (
            data[7] == 0u8 || data[7] == 1u8) ==> parse_tpf2(data) is Ok
        },
{
}

/// The TPF3 validation rules on literal values: the nonce is 12 bytes for
/// AES-256-GCM and 24 for XChaCha20-Poly1305; a direct header carries no KEM
/// ciphertext and no TPM policy; a TPM-wrapped header carries a wrapped key
/// and no KEM ciphertext; an ML-KEM header carries a wrapped key and a KEM
/// ciphertext and no TPM policy.
pub proof fn lemma_tpf3_validation_rules(v: Tpf3HeaderView)
    ensures
        v.valid() <==> {
            &&& v.nonce.len() == (match v.cipher_suite {
                CipherSuite::Aes256Gcm => 12int,
                CipherSuite::XChaCha20Poly1305 => 24int,
            })
            &&& match v.wrap_mode {
                KeyWrapMode::Direct => v.kem_ciphertext.len() == 0 && v.tpm_policy.len() == 0,
                KeyWrapMode::TpmWrapped => v.wrapped_key.len() != 0 && v.kem_ciphertext.len()
                    == 0,
                KeyWrapMode::MlKem768 => v.wrapped_key.len() != 0 && v.kem_ciphertext.len() != 0
                    && v.tpm_policy.len() == 0,
            }
        },
        v.nonce.len() != (match v.cipher_suite {
            CipherSuite::Aes256Gcm => 12int,
            CipherSuite::XChaCha20Poly1305 => 24int,
        }) ==> v.validation_error() matches Some(FormatError::InvalidNonceLength { .. }),
        v.nonce.len() == (match v.cipher_suite {
            CipherSuite::Aes256Gcm => 12int,
            CipherSuite::XChaCha20Poly1305 => 24int,
        }) && !v.valid() ==> v.validation_error() == Some(FormatError::InvalidTpf3BlobLengths),
{
}

/// Which TPF3 headers a reader accepts: at least 56 bytes, magic `TPF3`,
/// version 1, cipher id 1 or 2, KDF id 1, wrap mode 0, 1 or 2, all four blobs
/// present in the input, and the validation rules; the errors come in that
/// order.
pub proof fn lemma_tpf3_parse_acceptance(data: Seq<u8>)
    ensures
        data.len() < 56 ==> parse_tpf3(data) == Err::<Tpf3HeaderView, FormatError>(
            FormatError::Tpf3HeaderTooShort,
        ),
        data.len() >= 56 && data.subrange(0, 4) != seq![0x54u8, 0x50u8, 0x46u8, 0x33u8]
            ==> parse_tpf3(data) == Err::<Tpf3HeaderView, FormatError>(FormatError::InvalidMagic),
        data.len() >= 56 && data.subrange(0, 4) == seq![0x54u8, 0x50u8, 0x46u8, 0x33u8] ==> {
            &&& data[4] != 1u8 ==> parse_tpf3(data) == Err::<Tpf3HeaderView, FormatError>(
                FormatError::UnsupportedVersion(data[4]),
            )
            &&& data[4] == 1u8 && data[7] != 1u8 && data[7] != 2u8 ==> parse_tpf3(data) == Err::<
                Tpf3HeaderView,
                FormatError,
            >(FormatError::UnsupportedCipherSuite(data[7]))
            &&& data[4] == 1u8 && (data[7] == 1u8 || data[7] == 2u8) && data[8] != 1u8
                ==> parse_tpf3(data) == Err::<Tpf3HeaderView, FormatError>(
                FormatError::UnsupportedTpf3Kdf(data[8]),
            )
            &&& data[4] == 1u8 && (data[7] == 1u8 || data[7] == 2u8) && data[8] == 1u8 && data[9]
                > 2u8 ==> parse_tpf3(data) == Err::<Tpf3HeaderView, FormatError>(
                FormatError::UnsupportedWrapMode(data[9]),
            )
            &&& data[4] == 1u8 && (data[7] == 1u8 || data[7] == 2u8) && data[8] == 1u8 && data[9]
                <= 2u8 && data.len() < 56 + data[10] + spec_u16_from_le_bytes(
                data.subrange(11, 13),
            ) + spec_u16_from_le_bytes(data.subrange(13, 15)) + spec_u16_from_le_bytes(
                data.subrange(15, 17),
            ) ==> parse_tpf3(data) == Err::<Tpf3HeaderView, FormatError>(
                FormatError::InvalidTpf3BlobLengths,
            )
        },
        parse_tpf3(data) is Ok ==> parse_tpf3(data)->Ok_0.valid(),
{
}

/// The first four bytes choose the parser: `TPF2` the TPF2 one, `TPF3` the
/// TPF3 one, anything else is refused as an invalid magic (a buffer shorter
/// than four bytes as too short).
pub proof fn lemma_parse_vault_magic(data: Seq<u8>)
    ensures
        data.len() < 4 ==> parse_vault(data) == Err::<ParsedVaultHeaderView, FormatError>(
            FormatError::HeaderTooShort,
        ),
        data.len() >= 4 && data.subrange(0, 4) == seq![0x54u8, 0x50u8, 0x46u8, 0x32u8]
            ==> parse_vault(data) == match parse_tpf2(data) {
            Ok(h) => Ok::<ParsedVaultHeaderView, FormatError>(ParsedVaultHeaderView::Tpf2(h)),
            Err(e) => Err::<ParsedVaultHeaderView, FormatError>(e),
        },
        data.len() >= 4 && data.subrange(0, 4) == seq![0x54u8, 0x50u8, 0x46u8, 0x33u8]
            ==> parse_vault(data) == match parse_tpf3(data) {
            Ok(h) => Ok::<ParsedVaultHeaderView, FormatError>(ParsedVaultHeaderView::Tpf3(h)),
            Err(e) => Err::<ParsedVaultHeaderView, FormatError>(e),
        },
        data.len() >= 4 && data.subrange(0, 4) != seq![0x54u8, 0x50u8, 0x46u8, 0x32u8]
            && data.subrange(0, 4) != seq![0x54u8, 0x50u8, 0x46u8, 0x33u8] ==> parse_vault(data)
            == Err::<ParsedVaultHeaderView, FormatError>(FormatError::InvalidMagic),
{
    assert(seq![0x54u8, 0x50u8, 0x46u8, 0x33u8] != seq![0x54u8, 0x50u8, 0x46u8, 0x32u8]) by {
        assert(seq![0x54u8, 0x50u8, 0x46u8, 0x33u8][3] != seq![0x54u8, 0x50u8, 0x46u8, 0x32u8][3]);
    }
}

} // verus!
