//! The on-disk vault container formats: the fixed 62-byte TPF2 header and the
//! extensible TPF3 header with its four trailing variable-length blobs.
use vstd::bytes::*;
use vstd::prelude::*;
use vstd::slice::slice_to_vec;

use crate::bytes::{append_bytes, copy_array};
use std::convert::TryFrom;

verus! {

/* ------------------------------------------------------------------------ */
/* Constants                                                                */
/* ------------------------------------------------------------------------ */

/// ASCII `TPF2`.
pub const MAGIC_BYTES: [u8; 4] = [0x54, 0x50, 0x46, 0x32];

pub const LEGACY_VERSION: u8 = 1;

pub const CURRENT_VERSION: u8 = 2;

pub const HEADER_SIZE: usize = 62;

pub const ALG_ID_AES_256_GCM: u8 = 1;

pub const KDF_ID_ARGON2ID: u8 = 1;

/// ASCII `TPF3`.
pub const TPF3_MAGIC_BYTES: [u8; 4] = [0x54, 0x50, 0x46, 0x33];

pub const TPF3_VERSION: u8 = 1;

/// Size of the fixed TPF3 prelude that precedes the variable-length blobs.
///
/// Layout:
/// 0..4   magic
/// 4      version
/// 5..7   flags (u16 LE)
/// 7      cipher_id
/// 8      kdf_id
/// 9      wrap_mode
/// 10     nonce_len
/// 11..13 wrapped_key_len (u16 LE)
/// 13..15 kem_ct_len (u16 LE)
/// 15..17 tpm_policy_len (u16 LE)
/// 17..21 kdf_m (u32 LE)
/// 21..23 kdf_t (u16 LE)
/// 23     kdf_p
/// 24..56 os_salt (32 bytes)
pub const TPF3_FIXED_HEADER_SIZE: usize = 56;

pub const TPF3_CIPHER_AES_256_GCM: u8 = 1;

pub const TPF3_CIPHER_XCHACHA20POLY1305: u8 = 2;

pub const TPF3_KDF_ARGON2ID_HKDF_SHA256: u8 = 1;

pub const TPF3_WRAP_NONE: u8 = 0;

pub const TPF3_WRAP_TPM: u8 = 1;

pub const TPF3_WRAP_MLKEM768: u8 = 2;

pub open spec fn tpf2_magic() -> Seq<u8> {
    seq![0x54u8, 0x50u8, 0x46u8, 0x32u8]
}

pub open spec fn tpf3_magic() -> Seq<u8> {
    seq![0x54u8, 0x50u8, 0x46u8, 0x33u8]
}

/* ------------------------------------------------------------------------ */
/* Errors                                                                   */
/* ------------------------------------------------------------------------ */

#[derive(Debug)]
pub enum FormatError {
    InvalidMagic,
    UnsupportedVersion(u8),
    UnsupportedAlgorithm(u8),
    UnsupportedKdf(u8),
    UnsupportedCipherSuite(u8),
    UnsupportedTpf3Kdf(u8),
    UnsupportedWrapMode(u8),
    HeaderTooShort,
    Tpf3HeaderTooShort,
    InvalidTpf3BlobLengths,
    InvalidNonceLength { cipher: &'static str, expected: usize, actual: usize },
    LengthOverflow,
}


/* ------------------------------------------------------------------------ */
/* TPF3 identifier enums                                                    */
/* ------------------------------------------------------------------------ */

/// Cipher suites a TPF3 vault may declare.
#[derive(Debug, Clone, Copy, PartialEq, Eq, Structural)]
pub enum CipherSuite {
    Aes256Gcm,
    XChaCha20Poly1305,
}

pub open spec fn cipher_suite_id(c: CipherSuite) -> u8 {
    match c {
        CipherSuite::Aes256Gcm => 1,
        CipherSuite::XChaCha20Poly1305 => 2,
    }
}

pub open spec fn cipher_suite_name(c: CipherSuite) -> &'static str {
    match c {
        CipherSuite::Aes256Gcm => "AES-256-GCM",
        CipherSuite::XChaCha20Poly1305 => "XChaCha20-Poly1305",
    }
}

pub open spec fn cipher_suite_nonce_len(c: CipherSuite) -> usize {
    match c {
        CipherSuite::Aes256Gcm => 12,
        CipherSuite::XChaCha20Poly1305 => 24,
    }
}

/// The cipher suite that a TPF3 identifier byte denotes, if any.
pub open spec fn cipher_suite_from_id(b: u8) -> Option<CipherSuite> {
    if b == 1 {
        Some(CipherSuite::Aes256Gcm)
    } else if b == 2 {
        Some(CipherSuite::XChaCha20Poly1305)
    } else {
        None
    }
}

impl CipherSuite {
    pub fn id(self) -> (r: u8)
        ensures
            r == cipher_suite_id(self),
    {
        match self {
            CipherSuite::Aes256Gcm => TPF3_CIPHER_AES_256_GCM,
            CipherSuite::XChaCha20Poly1305 => TPF3_CIPHER_XCHACHA20POLY1305,
        }
    }

    pub fn name(self) -> (r: &'static str)
        ensures
            r == cipher_suite_name(self),
    {
        match self {
            CipherSuite::Aes256Gcm => "AES-256-GCM",
            CipherSuite::XChaCha20Poly1305 => "XChaCha20-Poly1305",
        }
    }

    pub fn nonce_len(self) -> (r: usize)
        ensures
            r == cipher_suite_nonce_len(self),
    {
        match self {
            CipherSuite::Aes256Gcm => 12,
            CipherSuite::XChaCha20Poly1305 => 24,
        }
    }
}

impl vstd::std_specs::convert::TryFromSpecImpl<u8> for CipherSuite {
    open spec fn obeys_try_from_spec() -> bool {
        true
    }

    open spec fn try_from_spec(v: u8) -> Result<Self, FormatError> {
        match cipher_suite_from_id(v) {
            Some(c) => Ok(c),
            None => Err(FormatError::UnsupportedCipherSuite(v)),
        }
    }
}

impl TryFrom<u8> for CipherSuite {
    type Error = FormatError;

    fn try_from(value: u8) -> (r: Result<Self, FormatError>) {
        if value == TPF3_CIPHER_AES_256_GCM {
            Ok(CipherSuite::Aes256Gcm)
        } else if value == TPF3_CIPHER_XCHACHA20POLY1305 {
            Ok(CipherSuite::XChaCha20Poly1305)
        } else {
            Err(FormatError::UnsupportedCipherSuite(value))
        }
    }
}

/// Key-derivation schemes a TPF3 vault may declare.
#[derive(Debug, Clone, Copy, PartialEq, Eq, Structural)]
pub enum Tpf3Kdf {
    Argon2idHkdfSha256,
}

pub open spec fn tpf3_kdf_id(k: Tpf3Kdf) -> u8 {
    match k {
        Tpf3Kdf::Argon2idHkdfSha256 => 1,
    }
}

pub open spec fn tpf3_kdf_from_id(b: u8) -> Option<Tpf3Kdf> {
    if b == 1 {
        Some(Tpf3Kdf::Argon2idHkdfSha256)
    } else {
        None
    }
}

impl Tpf3Kdf {
    pub fn id(self) -> (r: u8)
        ensures
            r == tpf3_kdf_id(self),
    {
        match self {
            Tpf3Kdf::Argon2idHkdfSha256 => TPF3_KDF_ARGON2ID_HKDF_SHA256,
        }
    }

    pub fn name(self) -> (r: &'static str)
        ensures
            r@ == "Argon2id + HKDF-SHA256"@,
    {
        match self {
            Tpf3Kdf::Argon2idHkdfSha256 => "Argon2id + HKDF-SHA256",
        }
    }
}

impl vstd::std_specs::convert::TryFromSpecImpl<u8> for Tpf3Kdf {
    open spec fn obeys_try_from_spec() -> bool {
        true
    }

    open spec fn try_from_spec(v: u8) -> Result<Self, FormatError> {
        match tpf3_kdf_from_id(v) {
            Some(k) => Ok(k),
            None => Err(FormatError::UnsupportedTpf3Kdf(v)),
        }
    }
}

impl TryFrom<u8> for Tpf3Kdf {
    type Error = FormatError;

    fn try_from(value: u8) -> (r: Result<Self, FormatError>) {
        if value == TPF3_KDF_ARGON2ID_HKDF_SHA256 {
            Ok(Tpf3Kdf::Argon2idHkdfSha256)
        } else {
            Err(FormatError::UnsupportedTpf3Kdf(value))
        }
    }
}

/// How the content key of a TPF3 vault is obtained.
#[derive(Debug, Clone, Copy, PartialEq, Eq, Structural)]
pub enum KeyWrapMode {
    Direct,
    TpmWrapped,
    MlKem768,
}

pub open spec fn key_wrap_mode_id(w: KeyWrapMode) -> u8 {
    match w {
        KeyWrapMode::Direct => 0,
        KeyWrapMode::TpmWrapped => 1,
        KeyWrapMode::MlKem768 => 2,
    }
}

pub open spec fn key_wrap_mode_from_id(b: u8) -> Option<KeyWrapMode> {
    if b == 0 {
        Some(KeyWrapMode::Direct)
    } else if b == 1 {
        Some(KeyWrapMode::TpmWrapped)
    } else if b == 2 {
        Some(KeyWrapMode::MlKem768)
    } else {
        None
    }
}

impl KeyWrapMode {
    pub fn id(self) -> (r: u8)
        ensures
            r == key_wrap_mode_id(self),
    {
        match self {
            KeyWrapMode::Direct => TPF3_WRAP_NONE,
            KeyWrapMode::TpmWrapped => TPF3_WRAP_TPM,
            KeyWrapMode::MlKem768 => TPF3_WRAP_MLKEM768,
        }
    }

    pub fn name(self) -> (r: &'static str)
        ensures
            self == KeyWrapMode::Direct ==> r@ == "None"@,
            self == KeyWrapMode::TpmWrapped ==> r@ == "TPM-wrapped key"@,
            self == KeyWrapMode::MlKem768 ==> r@ == "ML-KEM-768 wrapped key"@,
    {
        match self {
            KeyWrapMode::Direct => "None",
            KeyWrapMode::TpmWrapped => "TPM-wrapped key",
            KeyWrapMode::MlKem768 => "ML-KEM-768 wrapped key",
        }
    }
}

impl vstd::std_specs::convert::TryFromSpecImpl<u8> for KeyWrapMode {
    open spec fn obeys_try_from_spec() -> bool {
        true
    }

    open spec fn try_from_spec(v: u8) -> Result<Self, FormatError> {
        match key_wrap_mode_from_id(v) {
            Some(w) => Ok(w),
            None => Err(FormatError::UnsupportedWrapMode(v)),
        }
    }
}

impl TryFrom<u8> for KeyWrapMode {
    type Error = FormatError;

    fn try_from(value: u8) -> (r: Result<Self, FormatError>) {
        if value == TPF3_WRAP_NONE {
            Ok(KeyWrapMode::Direct)
        } else if value == TPF3_WRAP_TPM {
            Ok(KeyWrapMode::TpmWrapped)
        } else if value == TPF3_WRAP_MLKEM768 {
            Ok(KeyWrapMode::MlKem768)
        } else {
            Err(FormatError::UnsupportedWrapMode(value))
        }
    }
}

/* ------------------------------------------------------------------------ */
/* Legacy TPF2 header                                                       */
/* ------------------------------------------------------------------------ */

/// The 62-byte binary layout of the legacy vault header (v1 legacy, v2 current).
#[derive(Debug, Clone)]
pub struct Tpf2Header {
    pub magic: [u8; 4],
    pub version: u8,
    pub flags: u8,
    pub alg_id: u8,
    pub kdf_id: u8,
    pub kdf_m: u32,
    pub kdf_t: u16,
    pub kdf_p: u8,
    pub tpm_flag: u8,
    pub reserved: [u8; 2],
    pub os_salt: [u8; 32],
    pub nonce: [u8; 12],
}

/// Mathematical model of a TPF2 header: the byte arrays become sequences.
pub struct Tpf2HeaderView {
    pub magic: Seq<u8>,
    pub version: u8,
    pub flags: u8,
    pub alg_id: u8,
    pub kdf_id: u8,
    pub kdf_m: u32,
    pub kdf_t: u16,
    pub kdf_p: u8,
    pub tpm_flag: u8,
    pub reserved: Seq<u8>,
    pub os_salt: Seq<u8>,
    pub nonce: Seq<u8>,
}

impl View for Tpf2Header {
    type V = Tpf2HeaderView;

    open spec fn view(&self) -> Tpf2HeaderView {
        Tpf2HeaderView {
            magic: self.magic@,
            version: self.version,
            flags: self.flags,
            alg_id: self.alg_id,
            kdf_id: self.kdf_id,
            kdf_m: self.kdf_m,
            kdf_t: self.kdf_t,
            kdf_p: self.kdf_p,
            tpm_flag: self.tpm_flag,
            reserved: self.reserved@,
            os_salt: self.os_salt@,
            nonce: self.nonce@,
        }
    }
}

impl Tpf2HeaderView {
    /// The byte arrays have the sizes the layout gives them.
    pub open spec fn well_sized(self) -> bool {
        &&& self.magic.len() == 4
        &&& self.reserved.len() == 2
        &&& self.os_salt.len() == 32
        &&& self.nonce.len() == 12
    }

    /// Header fields that a reader of the format accepts.
    pub open spec fn supported(self) -> bool {
        &&& self.well_sized()
        &&& self.magic == tpf2_magic()
        &&& (self.version == 1 || self.version == 2)
        &&& (self.alg_id == 0 || self.alg_id == 1)
        &&& (self.kdf_id == 0 || self.kdf_id == 1)
    }

    /// The serialized header, field by field in layout order.
    pub open spec fn encoding(self) -> Seq<u8> {
        self.magic + seq![self.version, self.flags, self.alg_id, self.kdf_id]
            + spec_u32_to_le_bytes(self.kdf_m) + spec_u16_to_le_bytes(self.kdf_t)
            + seq![self.kdf_p, self.tpm_flag] + self.reserved + self.os_salt + self.nonce
    }
}

/// Reads the header fields at their fixed offsets (no checks).
pub open spec fn decode_tpf2(data: Seq<u8>) -> Tpf2HeaderView {
    Tpf2HeaderView {
        magic: data.subrange(0, 4),
        version: data[4],
        flags: data[5],
        alg_id: data[6],
        kdf_id: data[7],
        kdf_m: spec_u32_from_le_bytes(data.subrange(8, 12)),
        kdf_t: spec_u16_from_le_bytes(data.subrange(12, 14)),
        kdf_p: data[14],
        tpm_flag: data[15],
        reserved: data.subrange(16, 18),
        os_salt: data.subrange(18, 50),
        nonce: data.subrange(50, 62),
    }
}

/// What parsing the start of `data` as a TPF2 header yields.
pub open spec fn parse_tpf2(data: Seq<u8>) -> Result<Tpf2HeaderView, FormatError> {
    if data.len() < 62 {
        Err(FormatError::HeaderTooShort)
    } else if data.subrange(0, 4) != tpf2_magic() {
        Err(FormatError::InvalidMagic)
    } else if data[4] != 1 && data[4] != 2 {
        Err(FormatError::UnsupportedVersion(data[4]))
    } else if data[6] != 0 && data[6] != 1 {
        Err(FormatError::UnsupportedAlgorithm(data[6]))
    } else if data[7] != 0 && data[7] != 1 {
        Err(FormatError::UnsupportedKdf(data[7]))
    } else {
        Ok(decode_tpf2(data))
    }
}

impl Tpf2Header {
    /// Creates a new TPV 2.0 header with the current version and canonical IDs.
    pub fn new_v2(
        flags: u8,
        kdf_m: u32,
        kdf_t: u16,
        kdf_p: u8,
        tpm_flag: u8,
        os_salt: [u8; 32],
        nonce: [u8; 12],
    ) -> (h: Self)
        ensures
            h@ == (Tpf2HeaderView {
                magic: tpf2_magic(),
                version: 2,
                flags,
                alg_id: 1,
                kdf_id: 1,
                kdf_m,
                kdf_t,
                kdf_p,
                tpm_flag,
                reserved: seq![0u8, 0u8],
                os_salt: os_salt@,
                nonce: nonce@,
            }),
            h@.supported(),
    {
        let h = Tpf2Header {
            magic: MAGIC_BYTES,
            version: CURRENT_VERSION,
            flags,
            alg_id: ALG_ID_AES_256_GCM,
            kdf_id: KDF_ID_ARGON2ID,
            kdf_m,
            kdf_t,
            kdf_p,
            tpm_flag,
            reserved: [0u8; 2],
            os_salt,
            nonce,
        };
        assert(h.magic@ =~= tpf2_magic());
        assert(h.reserved@ =~= seq![0u8, 0u8]);
        h
    }

    pub fn uses_v2_key_schedule(&self) -> (r: bool)
        ensures
            r == (self.version >= 2),
    {
        self.version >= CURRENT_VERSION
    }

    pub fn algorithm_name(&self) -> (r: &'static str)
        ensures
            (self.alg_id == 0 || self.alg_id == 1) ==> r@ == "AES-256-GCM"@,
            !(self.alg_id == 0 || self.alg_id == 1) ==> r@ == "Unknown"@,
    {
        if self.alg_id == 0 || self.alg_id == ALG_ID_AES_256_GCM {
            "AES-256-GCM"
        } else {
            "Unknown"
        }
    }

    pub fn kdf_name(&self) -> (r: &'static str)
        ensures
            (self.kdf_id == 0 || self.kdf_id == 1) ==> r@ == "Argon2id"@,
            !(self.kdf_id == 0 || self.kdf_id == 1) ==> r@ == "Unknown"@,
    {
        if self.kdf_id == 0 || self.kdf_id == KDF_ID_ARGON2ID {
            "Argon2id"
        } else {
            "Unknown"
        }
    }

    /// Serializes the header into its 62 bytes.
    pub fn as_bytes(&self) -> (r: Vec<u8>)
        ensures
            r@ == self@.encoding(),
            r@.len() == 62,
            r@[5] == self.flags,
            r@[15] == self.tpm_flag,
    {
        let mut buffer: Vec<u8> = Vec::with_capacity(HEADER_SIZE);
        append_bytes(&mut buffer, self.magic.as_slice());
        buffer.push(self.version);
        buffer.push(self.flags);
        buffer.push(self.alg_id);
        buffer.push(self.kdf_id);
        let m = u32_to_le_bytes(self.kdf_m);
        append_bytes(&mut buffer, m.as_slice());
        let t = u16_to_le_bytes(self.kdf_t);
        append_bytes(&mut buffer, t.as_slice());
        buffer.push(self.kdf_p);
        buffer.push(self.tpm_flag);
        append_bytes(&mut buffer, self.reserved.as_slice());
        append_bytes(&mut buffer, self.os_salt.as_slice());
        append_bytes(&mut buffer, self.nonce.as_slice());
        proof {
            lemma_auto_spec_u32_to_from_le_bytes();
            lemma_auto_spec_u16_to_from_le_bytes();
        }
        assert(buffer@ =~= self@.encoding());
        buffer
    }

    /// Parses a TPF2 header from the start of `data`.
    pub fn from_bytes(data: &[u8]) -> (r: Result<Self, FormatError>)
        ensures
            match r {
                Ok(h) => parse_tpf2(data@) == Ok::<Tpf2HeaderView, FormatError>(h@),
                Err(e) => parse_tpf2(data@) == Err::<Tpf2HeaderView, FormatError>(e),
            },
    {
        if data.len() < HEADER_SIZE {
            return Err(FormatError::HeaderTooShort);
        }
        let magic: [u8; 4] = copy_array(data, 0);
        if !(data[0] == MAGIC_BYTES[0] && data[1] == MAGIC_BYTES[1] && data[2] == MAGIC_BYTES[2]
            && data[3] == MAGIC_BYTES[3]) {
            assert(data@.subrange(0, 4) != tpf2_magic()) by {
                if data@.subrange(0, 4) == tpf2_magic() {
                    assert(data@.subrange(0, 4)[0] == data@[0]);
                }
            }
            return Err(FormatError::InvalidMagic);
        }
        assert(data@.subrange(0, 4) =~= tpf2_magic());
        let version = data[4];
        if version != LEGACY_VERSION && version != CURRENT_VERSION {
            return Err(FormatError::UnsupportedVersion(version));
        }
        let alg_id = data[6];
        if alg_id != 0 && alg_id != ALG_ID_AES_256_GCM {
            return Err(FormatError::UnsupportedAlgorithm(alg_id));
        }
        let kdf_id = data[7];
        if kdf_id != 0 && kdf_id != KDF_ID_ARGON2ID {
            return Err(FormatError::UnsupportedKdf(kdf_id));
        }
        let kdf_m = u32_from_le_bytes(&data[8..12]);
        let kdf_t = u16_from_le_bytes(&data[12..14]);
        let reserved: [u8; 2] = copy_array(data, 16);
        let os_salt: [u8; 32] = copy_array(data, 18);
        let nonce: [u8; 12] = copy_array(data, 50);
        let h = Tpf2Header {
            magic,
            version,
            flags: data[5],
            alg_id,
            kdf_id,
            kdf_m,
            kdf_t,
            kdf_p: data[14],
            tpm_flag: data[15],
            reserved,
            os_salt,
            nonce,
        };
        assert(h@ == decode_tpf2(data@));
        Ok(h)
    }
}

/* ------------------------------------------------------------------------ */
/* TPF3 header                                                              */
/* ------------------------------------------------------------------------ */

/// The extensible TPF3 header: a 56-byte fixed prelude followed by the nonce,
/// wrapped key, KEM ciphertext and TPM policy blobs.
#[derive(Debug, Clone)]
pub struct Tpf3Header {
    pub magic: [u8; 4],
    pub version: u8,
    pub flags: u16,
    pub cipher_suite: CipherSuite,
    pub kdf: Tpf3Kdf,
    pub wrap_mode: KeyWrapMode,
    pub kdf_m: u32,
    pub kdf_t: u16,
    pub kdf_p: u8,
    pub os_salt: [u8; 32],
    pub nonce: Vec<u8>,
    pub wrapped_key: Vec<u8>,
    pub kem_ciphertext: Vec<u8>,
    pub tpm_policy: Vec<u8>,
}

/// Mathematical model of a TPF3 header.
pub struct Tpf3HeaderView {
    pub magic: Seq<u8>,
    pub version: u8,
    pub flags: u16,
    pub cipher_suite: CipherSuite,
    pub kdf: Tpf3Kdf,
    pub wrap_mode: KeyWrapMode,
    pub kdf_m: u32,
    pub kdf_t: u16,
    pub kdf_p: u8,
    pub os_salt: Seq<u8>,
    pub nonce: Seq<u8>,
    pub wrapped_key: Seq<u8>,
    pub kem_ciphertext: Seq<u8>,
    pub tpm_policy: Seq<u8>,
}

impl View for Tpf3Header {
    type V = Tpf3HeaderView;

    open spec fn view(&self) -> Tpf3HeaderView {
        Tpf3HeaderView {
            magic: self.magic@,
            version: self.version,
            flags: self.flags,
            cipher_suite: self.cipher_suite,
            kdf: self.kdf,
            wrap_mode: self.wrap_mode,
            kdf_m: self.kdf_m,
            kdf_t: self.kdf_t,
            kdf_p: self.kdf_p,
            os_salt: self.os_salt@,
            nonce: self.nonce@,
            wrapped_key: self.wrapped_key@,
            kem_ciphertext: self.kem_ciphertext@,
            tpm_policy: self.tpm_policy@,
        }
    }
}

impl Tpf3HeaderView {
    /// The first rule the header breaks, if any: the nonce length must match the
    /// cipher suite, and the blobs present must match the wrap mode.
    pub open spec fn validation_error(self) -> Option<FormatError> {
        if self.nonce.len() != cipher_suite_nonce_len(self.cipher_suite) {
            Some(
                FormatError::InvalidNonceLength {
                    cipher: cipher_suite_name(self.cipher_suite),
                    expected: cipher_suite_nonce_len(self.cipher_suite),
                    actual: self.nonce.len() as usize,
                },
            )
        } else {
            match self.wrap_mode {
                KeyWrapMode::Direct => if self.kem_ciphertext.len() != 0 || self.tpm_policy.len()
                    != 0 {
                    Some(FormatError::InvalidTpf3BlobLengths)
                } else {
                    None
                },
                KeyWrapMode::TpmWrapped => if self.wrapped_key.len() == 0
                    || self.kem_ciphertext.len() != 0 {
                    Some(FormatError::InvalidTpf3BlobLengths)
                } else {
                    None
                },
                KeyWrapMode::MlKem768 => if self.wrapped_key.len() == 0
                    || self.kem_ciphertext.len() == 0 || self.tpm_policy.len() != 0 {
                    Some(FormatError::InvalidTpf3BlobLengths)
                } else {
                    None
                },
            }
        }
    }

    pub open spec fn valid(self) -> bool {
        self.validation_error() is None
    }

    /// Every blob length fits its length field (u8 for the nonce, u16 otherwise).
    pub open spec fn lengths_fit(self) -> bool {
        &&& self.nonce.len() <= 0xff
        &&& self.wrapped_key.len() <= 0xffff
        &&& self.kem_ciphertext.len() <= 0xffff
        &&& self.tpm_policy.len() <= 0xffff
    }

    pub open spec fn well_sized(self) -> bool {
        self.magic.len() == 4 && self.os_salt.len() == 32
    }

    /// Header fields that a reader of the format accepts.
    pub open spec fn supported(self) -> bool {
        &&& self.well_sized()
        &&& self.magic == tpf3_magic()
        &&& self.version == 1
        &&& self.valid()
        &&& self.lengths_fit()
    }

    /// Where the AEAD payload begins: the fixed prelude plus the four blobs.
    pub open spec fn body_offset(self) -> int {
        56int + self.nonce.len() + self.wrapped_key.len() + self.kem_ciphertext.len()
            + self.tpm_policy.len()
    }

    /// The fixed 56-byte prelude.
    pub open spec fn prelude(self) -> Seq<u8> {
        self.magic + seq![self.version] + spec_u16_to_le_bytes(self.flags) + seq![
            cipher_suite_id(self.cipher_suite),
            tpf3_kdf_id(self.kdf),
            key_wrap_mode_id(self.wrap_mode),
            self.nonce.len() as u8,
        ] + spec_u16_to_le_bytes(self.wrapped_key.len() as u16) + spec_u16_to_le_bytes(
            self.kem_ciphertext.len() as u16,
        ) + spec_u16_to_le_bytes(self.tpm_policy.len() as u16) + spec_u32_to_le_bytes(
            self.kdf_m,
        ) + spec_u16_to_le_bytes(self.kdf_t) + seq![self.kdf_p] + self.os_salt
    }

    /// The serialized header: prelude, then the blobs in layout order.
    pub open spec fn encoding(self) -> Seq<u8> {
        self.prelude() + self.nonce + self.wrapped_key + self.kem_ciphertext + self.tpm_policy
    }

    /// What serializing the header yields.
    pub open spec fn serialized(self) -> Result<Seq<u8>, FormatError> {
        match self.validation_error() {
            Some(e) => Err(e),
            None => if self.lengths_fit() {
                Ok(self.encoding())
            } else {
                Err(FormatError::LengthOverflow)
            },
        }
    }
}

/// The blob lengths recorded in a TPF3 prelude: nonce, wrapped key, KEM
/// ciphertext, TPM policy.
pub open spec fn tpf3_nonce_len(data: Seq<u8>) -> int {
    data[10] as int
}

pub open spec fn tpf3_wrapped_key_len(data: Seq<u8>) -> int {
    spec_u16_from_le_bytes(data.subrange(11, 13)) as int
}

pub open spec fn tpf3_kem_ct_len(data: Seq<u8>) -> int {
    spec_u16_from_le_bytes(data.subrange(13, 15)) as int
}

pub open spec fn tpf3_tpm_policy_len(data: Seq<u8>) -> int {
    spec_u16_from_le_bytes(data.subrange(15, 17)) as int
}

pub open spec fn tpf3_total_len(data: Seq<u8>) -> int {
    56 + tpf3_nonce_len(data) + tpf3_wrapped_key_len(data) + tpf3_kem_ct_len(data)
        + tpf3_tpm_policy_len(data)
}

/// Reads a TPF3 header at its offsets (no checks).
pub open spec fn decode_tpf3(data: Seq<u8>) -> Tpf3HeaderView {
    let a: int = 56;
    let b = a + tpf3_nonce_len(data);
    let c = b + tpf3_wrapped_key_len(data);
    let d = c + tpf3_kem_ct_len(data);
    let e = d + tpf3_tpm_policy_len(data);
    Tpf3HeaderView {
        magic: data.subrange(0, 4),
        version: data[4],
        flags: spec_u16_from_le_bytes(data.subrange(5, 7)),
        cipher_suite: cipher_suite_from_id(data[7])->Some_0,
        kdf: tpf3_kdf_from_id(data[8])->Some_0,
        wrap_mode: key_wrap_mode_from_id(data[9])->Some_0,
        kdf_m: spec_u32_from_le_bytes(data.subrange(17, 21)),
        kdf_t: spec_u16_from_le_bytes(data.subrange(21, 23)),
        kdf_p: data[23],
        os_salt: data.subrange(24, 56),
        nonce: data.subrange(a, b),
        wrapped_key: data.subrange(b, c),
        kem_ciphertext: data.subrange(c, d),
        tpm_policy: data.subrange(d, e),
    }
}

/// What parsing the start of `data` as a TPF3 header yields.
pub open spec fn parse_tpf3(data: Seq<u8>) -> Result<Tpf3HeaderView, FormatError> {
    if data.len() < 56 {
        Err(FormatError::Tpf3HeaderTooShort)
    } else if data.subrange(0, 4) != tpf3_magic() {
        Err(FormatError::InvalidMagic)
    } else if data[4] != 1 {
        Err(FormatError::UnsupportedVersion(data[4]))
    } else if cipher_suite_from_id(data[7]) is None {
        Err(FormatError::UnsupportedCipherSuite(data[7]))
    } else if tpf3_kdf_from_id(data[8]) is None {
        Err(FormatError::UnsupportedTpf3Kdf(data[8]))
    } else if key_wrap_mode_from_id(data[9]) is None {
        Err(FormatError::UnsupportedWrapMode(data[9]))
    } else if data.len() < tpf3_total_len(data) {
        Err(FormatError::InvalidTpf3BlobLengths)
    } else {
        match decode_tpf3(data).validation_error() {
            Some(e) => Err(e),
            None => Ok(decode_tpf3(data)),
        }
    }
}

/// The header that `Tpf3Header::new_v3` assembles from its arguments.
pub open spec fn new_v3_view(
    flags: u16,
    cipher_suite: CipherSuite,
    wrap_mode: KeyWrapMode,
    kdf_m: u32,
    kdf_t: u16,
    kdf_p: u8,
    os_salt: Seq<u8>,
    nonce: Seq<u8>,
    wrapped_key: Seq<u8>,
    kem_ciphertext: Seq<u8>,
    tpm_policy: Seq<u8>,
) -> Tpf3HeaderView {
    Tpf3HeaderView {
        magic: tpf3_magic(),
        version: 1,
        flags,
        cipher_suite,
        kdf: Tpf3Kdf::Argon2idHkdfSha256,
        wrap_mode,
        kdf_m,
        kdf_t,
        kdf_p,
        os_salt,
        nonce,
        wrapped_key,
        kem_ciphertext,
        tpm_policy,
    }
}

impl Tpf3Header {
    /// Builds a TPF3 v1 header and checks it against the format's rules.
    pub fn new_v3(
        flags: u16,
        cipher_suite: CipherSuite,
        wrap_mode: KeyWrapMode,
        kdf_m: u32,
        kdf_t: u16,
        kdf_p: u8,
        os_salt: [u8; 32],
        nonce: Vec<u8>,
        wrapped_key: Vec<u8>,
        kem_ciphertext: Vec<u8>,
        tpm_policy: Vec<u8>,
    ) -> (r: Result<Self, FormatError>)
        ensures
            ({
                let v = new_v3_view(
                    flags,
                    cipher_suite,
                    wrap_mode,
                    kdf_m,
                    kdf_t,
                    kdf_p,
                    os_salt@,
                    nonce@,
                    wrapped_key@,
                    kem_ciphertext@,
                    tpm_policy@,
                );
                match r {
                    Ok(h) => h@ == v && v.valid(),
                    Err(e) => v.validation_error() == Some(e),
                }
            }),
    {
        let header = Tpf3Header {
            magic: TPF3_MAGIC_BYTES,
            version: TPF3_VERSION,
            flags,
            cipher_suite,
            kdf: Tpf3Kdf::Argon2idHkdfSha256,
            wrap_mode,
            kdf_m,
            kdf_t,
            kdf_p,
            os_salt,
            nonce,
            wrapped_key,
            kem_ciphertext,
            tpm_policy,
        };
        assert(header.magic@ =~= tpf3_magic());
        match header.validate() {
            Ok(()) => Ok(header),
            Err(e) => Err(e),
        }
    }

    pub fn cipher_name(&self) -> (r: &'static str)
        ensures
            r == cipher_suite_name(self.cipher_suite),
    {
        self.cipher_suite.name()
    }

    pub fn kdf_name(&self) -> (r: &'static str)
        ensures
            r@ == "Argon2id + HKDF-SHA256"@,
    {
        self.kdf.name()
    }

    pub fn wrap_mode_name(&self) -> (r: &'static str)
        ensures
            self.wrap_mode == KeyWrapMode::Direct ==> r@ == "None"@,
            self.wrap_mode == KeyWrapMode::TpmWrapped ==> r@ == "TPM-wrapped key"@,
            self.wrap_mode == KeyWrapMode::MlKem768 ==> r@ == "ML-KEM-768 wrapped key"@,
    {
        self.wrap_mode.name()
    }

    /// Offset of the AEAD payload within the vault file.
    pub fn body_offset(&self) -> (r: usize)
        requires
            self@.body_offset() <= usize::MAX,
        ensures
            r == self@.body_offset(),
    {
        TPF3_FIXED_HEADER_SIZE + self.nonce.len() + self.wrapped_key.len()
            + self.kem_ciphertext.len() + self.tpm_policy.len()
    }

    /// Serializes the header after checking it against the format's rules.
    pub fn as_bytes(&self) -> (r: Result<Vec<u8>, FormatError>)
        ensures
            match r {
                Ok(b) => self@.serialized() == Ok::<Seq<u8>, FormatError>(b@),
                Err(e) => self@.serialized() == Err::<Seq<u8>, FormatError>(e),
            },
            r matches Ok(b) ==> {
                &&& b@[10] == self.nonce@.len()
                &&& b@.subrange(11, 13) == spec_u16_to_le_bytes(self.wrapped_key@.len() as u16)
                &&& b@.subrange(13, 15) == spec_u16_to_le_bytes(self.kem_ciphertext@.len() as u16)
                &&& b@.subrange(15, 17) == spec_u16_to_le_bytes(self.tpm_policy@.len() as u16)
                &&& b@.len() == 56 + self.nonce@.len() + self.wrapped_key@.len()
                    + self.kem_ciphertext@.len() + self.tpm_policy@.len()
            },
    {
        match self.validate() {
            Ok(()) => {},
            Err(e) => {
                return Err(e);
            },
        }
        if self.nonce.len() > 0xff || self.wrapped_key.len() > 0xffff
            || self.kem_ciphertext.len() > 0xffff || self.tpm_policy.len() > 0xffff {
            return Err(FormatError::LengthOverflow);
        }
        let nonce_len = self.nonce.len() as u8;
        let wrapped_key_len = self.wrapped_key.len() as u16;
        let kem_ct_len = self.kem_ciphertext.len() as u16;
        let tpm_policy_len = self.tpm_policy.len() as u16;

        let mut buffer: Vec<u8> = Vec::new();
        append_bytes(&mut buffer, self.magic.as_slice());
        buffer.push(self.version);
        let f = u16_to_le_bytes(self.flags);
        append_bytes(&mut buffer, f.as_slice());
        buffer.push(self.cipher_suite.id());
        buffer.push(self.kdf.id());
        buffer.push(self.wrap_mode.id());
        buffer.push(nonce_len);
        let w = u16_to_le_bytes(wrapped_key_len);
        append_bytes(&mut buffer, w.as_slice());
        let k = u16_to_le_bytes(kem_ct_len);
        append_bytes(&mut buffer, k.as_slice());
        let p = u16_to_le_bytes(tpm_policy_len);
        append_bytes(&mut buffer, p.as_slice());
        let m = u32_to_le_bytes(self.kdf_m);
        append_bytes(&mut buffer, m.as_slice());
        let t = u16_to_le_bytes(self.kdf_t);
        append_bytes(&mut buffer, t.as_slice());
        buffer.push(self.kdf_p);
        append_bytes(&mut buffer, self.os_salt.as_slice());
        assert(buffer@ =~= self@.prelude());
        append_bytes(&mut buffer, self.nonce.as_slice());
        append_bytes(&mut buffer, self.wrapped_key.as_slice());
        append_bytes(&mut buffer, self.kem_ciphertext.as_slice());
        append_bytes(&mut buffer, self.tpm_policy.as_slice());
        assert(buffer@ =~= self@.encoding());
        proof {
            crate::format_laws::lemma_tpf3_encoding_layout(self@);
        }
        Ok(buffer)
    }

    /// Parses a TPF3 header, with its blobs, from the start of `data`.
    pub fn from_bytes(data: &[u8]) -> (r: Result<Self, FormatError>)
        ensures
            match r {
                Ok(h) => parse_tpf3(data@) == Ok::<Tpf3HeaderView, FormatError>(h@),
                Err(e) => parse_tpf3(data@) == Err::<Tpf3HeaderView, FormatError>(e),
            },
            r matches Ok(h) ==> {
                &&& h.nonce@.len() == data@[10]
                &&& h.wrapped_key@.len() == spec_u16_from_le_bytes(data@.subrange(11, 13))
                &&& h.kem_ciphertext@.len() == spec_u16_from_le_bytes(data@.subrange(13, 15))
                &&& h.tpm_policy@.len() == spec_u16_from_le_bytes(data@.subrange(15, 17))
                &&& h.nonce@ == data@.subrange(56, 56int + h.nonce@.len())
            },
    {
        if data.len() < TPF3_FIXED_HEADER_SIZE {
            return Err(FormatError::Tpf3HeaderTooShort);
        }
        let magic: [u8; 4] = copy_array(data, 0);
        if !(data[0] == TPF3_MAGIC_BYTES[0] && data[1] == TPF3_MAGIC_BYTES[1] && data[2]
            == TPF3_MAGIC_BYTES[2] && data[3] == TPF3_MAGIC_BYTES[3]) {
            assert(data@.subrange(0, 4) != tpf3_magic()) by {
                if data@.subrange(0, 4) == tpf3_magic() {
                    assert(data@.subrange(0, 4)[0] == data@[0]);
                }
            }
            return Err(FormatError::InvalidMagic);
        }
        assert(data@.subrange(0, 4) =~= tpf3_magic());
        let version = data[4];
        if version != TPF3_VERSION {
            return Err(FormatError::UnsupportedVersion(version));
        }
        let flags = u16_from_le_bytes(&data[5..7]);
        let cipher_suite = match CipherSuite::try_from(data[7]) {
            Ok(c) => c,
            Err(e) => {
                return Err(e);
            },
        };
        let kdf = match Tpf3Kdf::try_from(data[8]) {
            Ok(k) => k,
            Err(e) => {
                return Err(e);
            },
        };
        let wrap_mode = match KeyWrapMode::try_from(data[9]) {
            Ok(w) => w,
            Err(e) => {
                return Err(e);
            },
        };
        let nonce_len = data[10] as usize;
        let wrapped_key_len = u16_from_le_bytes(&data[11..13]) as usize;
        let kem_ct_len = u16_from_le_bytes(&data[13..15]) as usize;
        let tpm_policy_len = u16_from_le_bytes(&data[15..17]) as usize;
        let kdf_m = u32_from_le_bytes(&data[17..21]);
        let kdf_t = u16_from_le_bytes(&data[21..23]);
        let kdf_p = data[23];
        let os_salt: [u8; 32] = copy_array(data, 24);

        let total_needed = TPF3_FIXED_HEADER_SIZE + nonce_len + wrapped_key_len + kem_ct_len
            + tpm_policy_len;
        if data.len() < total_needed {
            return Err(FormatError::InvalidTpf3BlobLengths);
        }
        let mut offset = TPF3_FIXED_HEADER_SIZE;
        let nonce = slice_to_vec(&data[offset..offset + nonce_len]);
        offset += nonce_len;
        let wrapped_key = slice_to_vec(&data[offset..offset + wrapped_key_len]);
        offset += wrapped_key_len;
        let kem_ciphertext = slice_to_vec(&data[offset..offset + kem_ct_len]);
        offset += kem_ct_len;
        let tpm_policy = slice_to_vec(&data[offset..offset + tpm_policy_len]);

        let header = Tpf3Header {
            magic,
            version,
            flags,
            cipher_suite,
            kdf,
            wrap_mode,
            kdf_m,
            kdf_t,
            kdf_p,
            os_salt,
            nonce,
            wrapped_key,
            kem_ciphertext,
            tpm_policy,
        };
        assert(header@ == decode_tpf3(data@));
        match header.validate() {
            Ok(()) => {
                proof {
                    crate::format_laws::lemma_tpf3_parse_layout(data@);
                }
                Ok(header)
            },
            Err(e) => Err(e),
        }
    }

    /// Checks the nonce length against the cipher suite and the blobs against
    /// the wrap mode.
    fn validate(&self) -> (r: Result<(), FormatError>)
        ensures
            match r {
                Ok(()) => self@.validation_error() is None,
                Err(e) => self@.validation_error() == Some(e),
            },
    {
        let expected_nonce_len = self.cipher_suite.nonce_len();
        if self.nonce.len() != expected_nonce_len {
            return Err(
                FormatError::InvalidNonceLength {
                    cipher: self.cipher_suite.name(),
                    expected: expected_nonce_len,
                    actual: self.nonce.len(),
                },
            );
        }
        match self.wrap_mode {
            KeyWrapMode::Direct => {
                if !self.kem_ciphertext.is_empty() || !self.tpm_policy.is_empty() {
                    return Err(FormatError::InvalidTpf3BlobLengths);
                }
            },
            KeyWrapMode::TpmWrapped => {
                if self.wrapped_key.is_empty() || !self.kem_ciphertext.is_empty() {
                    return Err(FormatError::InvalidTpf3BlobLengths);
                }
            },
            KeyWrapMode::MlKem768 => {
                if self.wrapped_key.is_empty() || self.kem_ciphertext.is_empty()
                    || !self.tpm_policy.is_empty() {
                    return Err(FormatError::InvalidTpf3BlobLengths);
                }
            },
        }
        Ok(())
    }
}

/* ------------------------------------------------------------------------ */
/* Unified parse helper                                                     */
/* ------------------------------------------------------------------------ */

#[derive(Debug, Clone)]
pub enum ParsedVaultHeader {
    Tpf2(Tpf2Header),
    Tpf3(Tpf3Header),
}

pub enum ParsedVaultHeaderView {
    Tpf2(Tpf2HeaderView),
    Tpf3(Tpf3HeaderView),
}

impl View for ParsedVaultHeader {
    type V = ParsedVaultHeaderView;

    open spec fn view(&self) -> ParsedVaultHeaderView {
        match self {
            ParsedVaultHeader::Tpf2(h) => ParsedVaultHeaderView::Tpf2(h@),
            ParsedVaultHeader::Tpf3(h) => ParsedVaultHeaderView::Tpf3(h@),
        }
    }
}

/// What parsing a vault file's header yields: the format is chosen by the
/// first four bytes.
pub open spec fn parse_vault(data: Seq<u8>) -> Result<ParsedVaultHeaderView, FormatError> {
    if data.len() < 4 {
        Err(FormatError::HeaderTooShort)
    } else if data.subrange(0, 4) == tpf2_magic() {
        match parse_tpf2(data) {
            Ok(h) => Ok(ParsedVaultHeaderView::Tpf2(h)),
            Err(e) => Err(e),
        }
    } else if data.subrange(0, 4) == tpf3_magic() {
        match parse_tpf3(data) {
            Ok(h) => Ok(ParsedVaultHeaderView::Tpf3(h)),
            Err(e) => Err(e),
        }
    } else {
        Err(FormatError::InvalidMagic)
    }
}

/// Parses a vault header, dispatching on the magic bytes.
pub fn parse_vault_header(data: &[u8]) -> (r: Result<ParsedVaultHeader, FormatError>)
    ensures
        match r {
            Ok(h) => parse_vault(data@) == Ok::<ParsedVaultHeaderView, FormatError>(h@),
            Err(e) => parse_vault(data@) == Err::<ParsedVaultHeaderView, FormatError>(e),
        },
{
    if data.len() < 4 {
        return Err(FormatError::HeaderTooShort);
    }
    let is_tpf2 = data[0] == MAGIC_BYTES[0] && data[1] == MAGIC_BYTES[1] && data[2]
        == MAGIC_BYTES[2] && data[3] == MAGIC_BYTES[3];
    let is_tpf3 = data[0] == TPF3_MAGIC_BYTES[0] && data[1] == TPF3_MAGIC_BYTES[1] && data[2]
        == TPF3_MAGIC_BYTES[2] && data[3] == TPF3_MAGIC_BYTES[3];
    assert(is_tpf2 <==> data@.subrange(0, 4) == tpf2_magic()) by {
        if data@.subrange(0, 4) == tpf2_magic() {
            assert(data@.subrange(0, 4)[0] == data@[0]);
            assert(data@.subrange(0, 4)[3] == data@[3]);
        }
        if is_tpf2 {
            assert(data@.subrange(0, 4) =~= tpf2_magic());
        }
    }
    assert(is_tpf3 <==> data@.subrange(0, 4) == tpf3_magic()) by {
        if data@.subrange(0, 4) == tpf3_magic() {
            assert(data@.subrange(0, 4)[0] == data@[0]);
            assert(data@.subrange(0, 4)[3] == data@[3]);
        }
        if is_tpf3 {
            assert(data@.subrange(0, 4) =~= tpf3_magic());
        }
    }
    if is_tpf2 {
        match Tpf2Header::from_bytes(data) {
            Ok(h) => Ok(ParsedVaultHeader::Tpf2(h)),
            Err(e) => Err(e),
        }
    } else if is_tpf3 {
        match Tpf3Header::from_bytes(data) {
            Ok(h) => Ok(ParsedVaultHeader::Tpf3(h)),
            Err(e) => Err(e),
        }
    } else {
        Err(FormatError::InvalidMagic)
    }
}

} // verus!
