//! The TPM side of TPF3 `TpmWrapped` vaults that involves no system call: key
//! scopes, the policy blob stored in the header, and the checks made before
//! the Windows key store is asked anything.
use vstd::bytes::*;
use vstd::prelude::*;
use vstd::string::StringExecFns;
use vstd::utf8::{decode_utf8, encode_utf8, valid_utf8};

use crate::bytes::append_bytes;
use crate::text::{is_choice, trim_str, trim_ws};

verus! {

/// `NCRYPT_MACHINE_KEY_FLAG`.
pub const NCRYPT_MACHINE_KEY_FLAG: u32 = 0x20;

/// Where a persisted TPM-backed key lives.
#[derive(Debug, Clone, Copy, PartialEq, Eq, Structural)]
pub enum TpmKeyScope {
    CurrentUser,
    LocalMachine,
}

pub open spec fn tpm_scope_id(s: TpmKeyScope) -> u8 {
    match s {
        TpmKeyScope::CurrentUser => 0,
        TpmKeyScope::LocalMachine => 1,
    }
}

pub open spec fn tpm_scope_from_id(id: u8) -> Option<TpmKeyScope> {
    if id == 0 {
        Some(TpmKeyScope::CurrentUser)
    } else if id == 1 {
        Some(TpmKeyScope::LocalMachine)
    } else {
        None
    }
}

#[derive(Debug)]
pub enum Win32Error {
    MemoryLockFailed(String),
    MemoryUnlockFailed(String),
    ClipboardWipeFailed,
    TpmProviderUnavailable,
    NCryptStatus(i32),
    InvalidTpmKeyAlias,
    InputTooLarge,
    TpmPolicyTooShort,
    InvalidTpmPolicyEncoding,
}

impl TpmKeyScope {
    /// The NCrypt flags that select the key store of this scope.
    pub fn flags(self) -> (r: u32)
        ensures
            r == (match self {
                TpmKeyScope::CurrentUser => 0u32,
                TpmKeyScope::LocalMachine => 0x20u32,
            }),
    {
        match self {
            TpmKeyScope::CurrentUser => 0,
            TpmKeyScope::LocalMachine => NCRYPT_MACHINE_KEY_FLAG,
        }
    }

    /// The scope's byte in a TPM policy blob.
    pub fn id(self) -> (r: u8)
        ensures
            r == tpm_scope_id(self),
    {
        match self {
            TpmKeyScope::CurrentUser => 0,
            TpmKeyScope::LocalMachine => 1,
        }
    }

    /// The scope a policy byte denotes.
    pub fn from_id(id: u8) -> (r: Result<Self, Win32Error>)
        ensures
            match tpm_scope_from_id(id) {
                Some(s) => r == Ok::<TpmKeyScope, Win32Error>(s),
                None => r matches Err(Win32Error::InvalidTpmPolicyEncoding),
            },
    {
        if id == 0 {
            Ok(TpmKeyScope::CurrentUser)
        } else if id == 1 {
            Ok(TpmKeyScope::LocalMachine)
        } else {
            Err(Win32Error::InvalidTpmPolicyEncoding)
        }
    }

    pub fn label(self) -> (r: &'static str)
        ensures
            self == TpmKeyScope::CurrentUser ==> r@ == "CurrentUser"@,
            self == TpmKeyScope::LocalMachine ==> r@ == "LocalMachine"@,
    {
        match self {
            TpmKeyScope::CurrentUser => "CurrentUser",
            TpmKeyScope::LocalMachine => "LocalMachine",
        }
    }
}

/* ------------------------------------------------------------------------ */
/* Checks before the key store is called                                    */
/* ------------------------------------------------------------------------ */

/// The scope a menu choice selects: `1` current user, `2` local machine.
pub fn tpm_scope_from_choice(choice: &str) -> (r: Option<TpmKeyScope>)
    ensures
        r == (if choice@ == "1"@ {
            Some(TpmKeyScope::CurrentUser)
        } else if choice@ == "2"@ {
            Some(TpmKeyScope::LocalMachine)
        } else {
            None::<TpmKeyScope>
        }),
{
    if is_choice(choice, "1") {
        Some(TpmKeyScope::CurrentUser)
    } else if is_choice(choice, "2") {
        Some(TpmKeyScope::LocalMachine)
    } else {
        None
    }
}

/// A key alias is usable when something other than whitespace remains.
pub fn check_tpm_alias(alias: &str) -> (r: Result<(), Win32Error>)
    ensures
        r is Ok <==> trim_ws(alias@).len() != 0,
        r matches Err(e) ==> e == Win32Error::InvalidTpmKeyAlias,
{
    if trim_str(alias).is_empty() {
        Err(Win32Error::InvalidTpmKeyAlias)
    } else {
        Ok(())
    }
}

/// The length of an input buffer as the `u32` NCrypt expects.
pub fn ncrypt_input_len(len: usize) -> (r: Result<u32, Win32Error>)
    ensures
        len <= u32::MAX ==> r == Ok::<u32, Win32Error>(len as u32),
        len > u32::MAX ==> r matches Err(Win32Error::InputTooLarge),
{
    if len <= 0xffff_ffffusize {
        Ok(len as u32)
    } else {
        Err(Win32Error::InputTooLarge)
    }
}

/// The alias a user typed, or the default when nothing but whitespace was typed.
pub fn resolve_tpm_alias(entered: String, default_alias: &str) -> (r: String)
    ensures
        trim_ws(entered@).len() == 0 ==> r@ == default_alias@,
        trim_ws(entered@).len() != 0 ==> r@ == entered@,
{
    if trim_str(entered.as_str()).is_empty() {
        String::from_str(default_alias)
    } else {
        entered
    }
}

/* ------------------------------------------------------------------------ */
/* Policy blob                                                              */
/* ------------------------------------------------------------------------ */

/// ASCII `TPM1`.
pub open spec fn tpm_policy_magic() -> Seq<u8> {
    seq![0x54u8, 0x50u8, 0x4du8, 0x31u8]
}

/// The policy blob: magic `TPM1`, the scope byte, the alias length (u16 LE),
/// then the alias as UTF-8.
pub open spec fn tpm_policy_bytes(alias: Seq<char>, scope: TpmKeyScope) -> Seq<u8> {
    tpm_policy_magic() + seq![tpm_scope_id(scope)] + spec_u16_to_le_bytes(
        encode_utf8(alias).len() as u16,
    ) + encode_utf8(alias)
}

/// What encoding a policy yields.
pub open spec fn encode_tpm_policy_result(alias: Seq<char>, scope: TpmKeyScope) -> Result<
    Seq<u8>,
    Win32Error,
> {
    if trim_ws(alias).len() == 0 {
        Err(Win32Error::InvalidTpmKeyAlias)
    } else if encode_utf8(alias).len() > 0xffff {
        Err(Win32Error::InputTooLarge)
    } else {
        Ok(tpm_policy_bytes(alias, scope))
    }
}

/// What decoding a policy blob yields: the trimmed alias and the scope.
pub open spec fn decode_tpm_policy_result(policy: Seq<u8>) -> Result<
    (Seq<char>, TpmKeyScope),
    Win32Error,
> {
    if policy.len() < 7 {
        Err(Win32Error::TpmPolicyTooShort)
    } else if policy.subrange(0, 4) != tpm_policy_magic() {
        Err(Win32Error::InvalidTpmPolicyEncoding)
    } else if tpm_scope_from_id(policy[4]) is None {
        Err(Win32Error::InvalidTpmPolicyEncoding)
    } else if policy.len() != 7 + spec_u16_from_le_bytes(policy.subrange(5, 7)) {
        Err(Win32Error::InvalidTpmPolicyEncoding)
    } else if !valid_utf8(policy.subrange(7, policy.len() as int)) {
        Err(Win32Error::InvalidTpmPolicyEncoding)
    } else if trim_ws(decode_utf8(policy.subrange(7, policy.len() as int))).len() == 0 {
        Err(Win32Error::InvalidTpmKeyAlias)
    } else {
        Ok(
            (
                trim_ws(decode_utf8(policy.subrange(7, policy.len() as int))),
                tpm_scope_from_id(policy[4])->Some_0,
            ),
        )
    }
}

/// Calls `std::str::from_utf8`. Claims what its documentation says: it
/// succeeds exactly on valid UTF-8, and the string then holds the decoded
/// characters.
#[verifier::external_body]
pub(crate) fn str_from_utf8(v: &[u8]) -> (r: Result<&str, std::str::Utf8Error>)
    ensures
        r is Ok <==> valid_utf8(v@),
        r matches Ok(s) ==> s@ == decode_utf8(v@),
{
    std::str::from_utf8(v)
}

/// `std::str::Utf8Error`, the error of UTF-8 validation.
#[verifier::external_type_specification]
#[verifier::external_body]
pub struct ExUtf8Error(std::str::Utf8Error);

/// Encodes the TPM policy metadata stored in a TPF3 header.
pub fn encode_tpm_policy(alias: &str, scope: TpmKeyScope) -> (r: Result<Vec<u8>, Win32Error>)
    ensures
        match encode_tpm_policy_result(alias@, scope) {
            Ok(b) => r matches Ok(v) && v@ == b,
            Err(e) => r matches Err(x) && x == e,
        },
{
    match check_tpm_alias(alias) {
        Ok(()) => {},
        Err(e) => {
            return Err(e);
        },
    }
    let alias_bytes = alias.as_bytes();
    if alias_bytes.len() > 0xffff {
        return Err(Win32Error::InputTooLarge);
    }
    let alias_len = alias_bytes.len() as u16;
    let mut policy: Vec<u8> = Vec::new();
    policy.push(0x54);
    policy.push(0x50);
    policy.push(0x4d);
    policy.push(0x31);
    policy.push(scope.id());
    let len_bytes = u16_to_le_bytes(alias_len);
    append_bytes(&mut policy, len_bytes.as_slice());
    append_bytes(&mut policy, alias_bytes);
    assert(policy@ =~= tpm_policy_bytes(alias@, scope));
    Ok(policy)
}

/// Decodes the TPM policy metadata stored in a TPF3 header.
pub fn decode_tpm_policy(policy: &[u8]) -> (r: Result<(String, TpmKeyScope), Win32Error>)
    ensures
        match decode_tpm_policy_result(policy@) {
            Ok((a, s)) => r matches Ok((x, y)) && x@ == a && y == s,
            Err(e) => r matches Err(x) && x == e,
        },
{
    if policy.len() < 7 {
        return Err(Win32Error::TpmPolicyTooShort);
    }
    let magic_ok = policy[0] == 0x54 && policy[1] == 0x50 && policy[2] == 0x4d && policy[3]
        == 0x31;
    assert(magic_ok <==> policy@.subrange(0, 4) == tpm_policy_magic()) by {
        if policy@.subrange(0, 4) == tpm_policy_magic() {
            assert(policy@.subrange(0, 4)[0] == policy@[0]);
            assert(policy@.subrange(0, 4)[1] == policy@[1]);
            assert(policy@.subrange(0, 4)[2] == policy@[2]);
            assert(policy@.subrange(0, 4)[3] == policy@[3]);
        }
        if magic_ok {
            assert(policy@.subrange(0, 4) =~= tpm_policy_magic());
        }
    }
    if !magic_ok {
        return Err(Win32Error::InvalidTpmPolicyEncoding);
    }
    let scope = match TpmKeyScope::from_id(policy[4]) {
        Ok(s) => s,
        Err(e) => {
            return Err(e);
        },
    };
    let alias_len = u16_from_le_bytes(&policy[5..7]) as usize;
    let expected = 7 + alias_len;
    if policy.len() != expected {
        return Err(Win32Error::InvalidTpmPolicyEncoding);
    }
    let text = match str_from_utf8(&policy[7..expected]) {
        Ok(t) => t,
        Err(_) => {
            return Err(Win32Error::InvalidTpmPolicyEncoding);
        },
    };
    let trimmed = trim_str(text);
    if trimmed.is_empty() {
        return Err(Win32Error::InvalidTpmKeyAlias);
    }
    Ok((String::from_str(trimmed), scope))
}


/// Decoding an encoded policy gives back the scope and the alias, trimmed.
pub proof fn lemma_tpm_policy_roundtrip(alias: Seq<char>, scope: TpmKeyScope)
    requires
        encode_tpm_policy_result(alias, scope) is Ok,
    ensures
        decode_tpm_policy_result(encode_tpm_policy_result(alias, scope)->Ok_0) == Ok::<
            (Seq<char>, TpmKeyScope),
            Win32Error,
        >((trim_ws(alias), scope)),
{
    lemma_auto_spec_u16_to_from_le_bytes();
    vstd::utf8::encode_utf8_valid_utf8(alias);
    vstd::utf8::encode_utf8_decode_utf8(alias);
    let enc = encode_utf8(alias);
    let p = tpm_policy_bytes(alias, scope);
    assert(p.subrange(0, 4) =~= tpm_policy_magic());
    assert(p.subrange(5, 7) =~= spec_u16_to_le_bytes(enc.len() as u16));
    assert(p.subrange(7, p.len() as int) =~= enc);
    assert(p[4] == tpm_scope_id(scope));
}

/// The policy blob layout on literal offsets: `TPM1`, the scope byte (0 for
/// the current user, 1 for the local machine), the alias's UTF-8 length as
/// u16 LE, then the alias's UTF-8 bytes; encoding succeeds exactly when the
/// alias is not blank and its UTF-8 form fits the length field.
pub proof fn lemma_tpm_policy_layout(alias: Seq<char>, scope: TpmKeyScope)
    ensures
        encode_tpm_policy_result(alias, scope) is Ok <==> (trim_ws(alias).len() != 0
            && encode_utf8(alias).len() <= 0xffff),
        encode_tpm_policy_result(alias, scope) matches Ok(b) ==> {
            &&& b.len() == 7 + encode_utf8(alias).len()
            &&& b.subrange(0, 4) == seq![0x54u8, 0x50u8, 0x4du8, 0x31u8]
            &&& b[4] == (match scope {
                TpmKeyScope::CurrentUser => 0u8,
                TpmKeyScope::LocalMachine => 1u8,
            })
            &&& b.subrange(5, 7) == spec_u16_to_le_bytes(encode_utf8(alias).len() as u16)
            &&& b.subrange(7, b.len() as int) == encode_utf8(alias)
        },
{
    lemma_auto_spec_u16_to_from_le_bytes();
    if encode_tpm_policy_result(alias, scope) is Ok {
        let b = tpm_policy_bytes(alias, scope);
        assert(b.subrange(0, 4) =~= seq![0x54u8, 0x50u8, 0x4du8, 0x31u8]);
        assert(b.subrange(5, 7) =~= spec_u16_to_le_bytes(encode_utf8(alias).len() as u16));
        assert(b.subrange(7, b.len() as int) =~= encode_utf8(alias));
    }
}

/// What decoding reads, on literal offsets: a blob accepted carries `TPM1`,
/// a scope byte of 0 (current user) or 1 (local machine), and exactly as many
/// alias bytes after byte 7 as its u16 LE length field at 5..7 says; the alias
/// returned is those bytes decoded as UTF-8 and trimmed, and is never blank.
pub proof fn lemma_tpm_policy_decode_layout(policy: Seq<u8>)
    ensures
        decode_tpm_policy_result(policy) matches Ok((a, s)) ==> {
            &&& policy.len() >= 7
            &&& policy.subrange(0, 4) == seq![0x54u8, 0x50u8, 0x4du8, 0x31u8]
            &&& policy[4] == 0u8 ==> s == TpmKeyScope::CurrentUser
            &&& policy[4] == 1u8 ==> s == TpmKeyScope::LocalMachine
            &&& (policy[4] == 0u8 || policy[4] == 1u8)
            &&& policy.len() == 7 + spec_u16_from_le_bytes(policy.subrange(5, 7))
            &&& a == trim_ws(decode_utf8(policy.subrange(7, policy.len() as int)))
            &&& a.len() != 0
        },
        policy.len() < 7 ==> decode_tpm_policy_result(policy) == Err::<
            (Seq<char>, TpmKeyScope),
            Win32Error,
        >(Win32Error::TpmPolicyTooShort),
{
}

/// Scope bytes and scopes correspond one to one.
pub proof fn lemma_tpm_scope_id_roundtrip(scope: TpmKeyScope)
    ensures
        tpm_scope_from_id(tpm_scope_id(scope)) == Some(scope),
{
}

/* ------------------------------------------------------------------------ */
/* UTF-16 names                                                             */
/* ------------------------------------------------------------------------ */

/// The UTF-16 code units of one character (a surrogate pair above U+FFFF).
pub open spec fn utf16_units(c: char) -> Seq<u16> {
    let u = c as u32;
    if u < 0x10000 {
        seq![u as u16]
    } else {
        seq![(0xd800 + (u - 0x10000) / 0x400) as u16, (0xdc00 + (u - 0x10000) % 0x400) as u16]
    }
}

/// The UTF-16 encoding of a character sequence.
pub open spec fn encode_utf16(s: Seq<char>) -> Seq<u16>
    decreases s.len(),
{
    if s.len() == 0 {
        Seq::empty()
    } else {
        encode_utf16(s.drop_last()) + utf16_units(s.last())
    }
}

/// UTF-16 decodes back: a character below U+10000 is its own code unit; any
/// other is a high surrogate (D800..DBFF) then a low surrogate (DC00..DFFF)
/// from which `0x10000 + (high - 0xD800) * 0x400 + (low - 0xDC00)` recovers it.
pub proof fn lemma_utf16_units_decode(c: char)
    ensures
        (c as u32) < 0x10000 ==> utf16_units(c) == seq![c as u32 as u16],
        (c as u32) >= 0x10000 ==> {
            let s = utf16_units(c);
            &&& s.len() == 2
            &&& 0xd800 <= s[0] <= 0xdbff
            &&& 0xdc00 <= s[1] <= 0xdfff
            &&& 0x10000 + (s[0] - 0xd800) * 0x400 + (s[1] - 0xdc00) == c as u32
        },
{
    let u = c as u32;
    if u >= 0x10000 {
        assert(u <= 0x10ffff);
        let hi = (u - 0x10000) / 0x400;
        let lo = (u - 0x10000) % 0x400;
        assert(0 <= hi < 0x400 && 0 <= lo < 0x400 && hi * 0x400 + lo == u - 0x10000)
            by (nonlinear_arith)
            requires
                0x10000 <= u <= 0x10ffff,
                hi == (u - 0x10000) / 0x400,
                lo == (u - 0x10000) % 0x400,
        ;
    }
}

/// A NUL-terminated UTF-16 copy of `value`, as the Windows wide-string APIs take.
pub fn to_utf16_null(value: &str) -> (r: Vec<u16>)
    ensures
        r@ == encode_utf16(value@).push(0u16),
{
    let mut out: Vec<u16> = Vec::new();
    for c in it: value.chars()
        invariant
            it.seq() == value@,
            out@ == encode_utf16(value@.take(it.index() as int)),
    {
        let u = c as u32;
        assert(value@.take(it.index() + 1).drop_last() =~= value@.take(it.index() as int));
        if u < 0x10000 {
            out.push(u as u16);
        } else {
            let v = u - 0x10000;
            out.push((0xd800 + v / 0x400) as u16);
            out.push((0xdc00 + v % 0x400) as u16);
        }
        assert(out@ =~= encode_utf16(value@.take(it.index() + 1)));
    }
    assert(value@.take(value@.len() as int) =~= value@);
    out.push(0);
    out
}

} // verus!
