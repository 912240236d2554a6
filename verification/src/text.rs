//! Text handling: whitespace trimming, and the answers and menu choices a
//! user types.
use vstd::prelude::*;
use vstd::string::StringExecFns;

use crate::format::{CipherSuite, KeyWrapMode};

verus! {

/* ------------------------------------------------------------------------ */
/* Whitespace                                                               */
/* ------------------------------------------------------------------------ */

/// The characters with the Unicode `White_Space` property, which is what
/// `char::is_whitespace` and `str::trim` use.
pub open spec fn is_unicode_whitespace(c: char) -> bool {
    let u = c as u32;
    ||| 0x09 <= u <= 0x0d
    ||| u == 0x20
    ||| u == 0x85
    ||| u == 0xa0
    ||| u == 0x1680
    ||| 0x2000 <= u <= 0x200a
    ||| u == 0x2028
    ||| u == 0x2029
    ||| u == 0x202f
    ||| u == 0x205f
    ||| u == 0x3000
}

/// `s` without its leading whitespace.
pub open spec fn trim_start_ws(s: Seq<char>) -> Seq<char>
    decreases s.len(),
{
    if s.len() > 0 && is_unicode_whitespace(s[0]) {
        trim_start_ws(s.drop_first())
    } else {
        s
    }
}

/// `s` without its trailing whitespace.
pub open spec fn trim_end_ws(s: Seq<char>) -> Seq<char>
    decreases s.len(),
{
    if s.len() > 0 && is_unicode_whitespace(s.last()) {
        trim_end_ws(s.drop_last())
    } else {
        s
    }
}

/// `s` without leading and trailing whitespace.
pub open spec fn trim_ws(s: Seq<char>) -> Seq<char> {
    trim_end_ws(trim_start_ws(s))
}

/// Calls `str::trim`. Claims what its documentation says: the result is the
/// input without leading and trailing characters of the Unicode `White_Space`
/// property.
#[verifier::external_body]
pub(crate) fn trim_str(s: &str) -> (r: &str)
    ensures
        r@ == trim_ws(s@),
{
    s.trim()
}

/* ------------------------------------------------------------------------ */
/* Lowercase                                                                */
/* ------------------------------------------------------------------------ */

/// The Unicode lowercase mapping of a string, as `str::to_lowercase` computes it.
pub uninterp spec fn unicode_lowercase(s: Seq<char>) -> Seq<char>;

/// Calls `str::to_lowercase`. Claims: the result is the `unicode_lowercase`
/// of the input (a function of the input alone).
#[verifier::external_body]
pub(crate) fn lowercase_str(s: &str) -> (r: String)
    ensures
        r@ == unicode_lowercase(s@),
{
    s.to_lowercase()
}

/* ------------------------------------------------------------------------ */
/* Answers and menu choices                                                 */
/* ------------------------------------------------------------------------ */

/// Whether a lowercased answer to a yes/no question is a yes: `y` or `yes`.
pub fn is_affirmative(lowered: &str) -> (r: bool)
    ensures
        r == (lowered@ == "y"@ || lowered@ == "yes"@),
{
    is_choice(lowered, "y") || is_choice(lowered, "yes")
}

/// Whether a typed (already trimmed) answer to a yes/no question is a yes:
/// `y` or `yes` in any letter case.
pub fn is_yes_answer(answer: &str) -> (r: bool)
    ensures
        r == (unicode_lowercase(answer@) == "y"@ || unicode_lowercase(answer@) == "yes"@),
{
    let lowered = lowercase_str(answer);
    is_affirmative(lowered.as_str())
}

/// Whether a typed answer is exactly the given menu key.
pub(crate) fn is_choice(choice: &str, key: &str) -> (r: bool)
    ensures
        r == (choice@ == key@),
{
    let a = String::from_str(choice);
    let b = String::from_str(key);
    a == b
}

/// The cipher suite a menu choice selects: `1` for AES-256-GCM, `2` for
/// XChaCha20-Poly1305, nothing otherwise.
pub fn cipher_suite_from_choice(choice: &str) -> (r: Option<CipherSuite>)
    ensures
        r == (if choice@ == "1"@ {
            Some(CipherSuite::Aes256Gcm)
        } else if choice@ == "2"@ {
            Some(CipherSuite::XChaCha20Poly1305)
        } else {
            None::<CipherSuite>
        }),
{
    if is_choice(choice, "1") {
        Some(CipherSuite::Aes256Gcm)
    } else if is_choice(choice, "2") {
        Some(CipherSuite::XChaCha20Poly1305)
    } else {
        None
    }
}

/// The wrap mode a menu choice selects: `1` direct derivation, `2` TPM-wrapped,
/// `3` ML-KEM-768, nothing otherwise.
pub fn wrap_mode_from_choice(choice: &str) -> (r: Option<KeyWrapMode>)
    ensures
        r == (if choice@ == "1"@ {
            Some(KeyWrapMode::Direct)
        } else if choice@ == "2"@ {
            Some(KeyWrapMode::TpmWrapped)
        } else if choice@ == "3"@ {
            Some(KeyWrapMode::MlKem768)
        } else {
            None::<KeyWrapMode>
        }),
{
    if is_choice(choice, "1") {
        Some(KeyWrapMode::Direct)
    } else if is_choice(choice, "2") {
        Some(KeyWrapMode::TpmWrapped)
    } else if is_choice(choice, "3") {
        Some(KeyWrapMode::MlKem768)
    } else {
        None
    }
}

} // verus!
