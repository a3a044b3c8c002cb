//! Key derivation: a user-supplied name is normalized, validated and hashed
//! into a short printable key.
use sha3::{Digest, Sha3_256};
use unicode_normalization::UnicodeNormalization;
use vstd::prelude::*;
use vstd::string::*;
use vstd::utf8::encode_utf8;

verus! {

/// The longest accepted name, in UTF-8 bytes of the name as given.
pub const MAX_RESOURCE_NAME_LENGTH: usize = 256;

/// How many leading digest bytes make up a key.
pub const KEY_DIGEST_BYTES: usize = 7;

/// The Unicode canonical composition (NFC) of `s`.
pub uninterp spec fn nfc_of(s: Seq<char>) -> Seq<char>;

/// The SHA3-256 digest of `data`.
pub uninterp spec fn sha3_256_of(data: Seq<u8>) -> Seq<u8>;

/// Relies on unicode_normalization's `UnicodeNormalization::nfc`: the composed
/// form is a function of the characters alone.
#[verifier::external_body]
fn nfc(s: &str) -> (r: String)
    ensures
        r@ == nfc_of(s@),
{
    s.nfc().collect::<String>()
}

/// Relies on sha3's `Sha3_256::digest`: a 32-byte digest, a function of the
/// bytes alone.
#[verifier::external_body]
fn sha3_256(data: &[u8]) -> (r: Vec<u8>)
    ensures
        r@ == sha3_256_of(data@),
        r@.len() == 32,
{
    Sha3_256::digest(data).to_vec()
}

/// The general category Cc: U+0000..=U+001F and U+007F..=U+009F.
pub open spec fn is_control_spec(c: char) -> bool {
    let u = c as u32;
    u <= 0x1f || (0x7f <= u && u <= 0x9f)
}

/// The characters with the Unicode White_Space property.
pub open spec fn is_whitespace_spec(c: char) -> bool {
    let u = c as u32;
    (0x09 <= u && u <= 0x0d) || u == 0x20 || u == 0x85 || u == 0xa0 || u == 0x1680 || (0x2000
        <= u && u <= 0x200a) || u == 0x2028 || u == 0x2029 || u == 0x202f || u == 0x205f || u
        == 0x3000
}

/// A character that may not appear in a normalized name.
pub open spec fn is_disallowed(c: char) -> bool {
    is_control_spec(c) || is_whitespace_spec(c)
}

/// Relies on `char::is_control`: true exactly for the general category Cc.
#[verifier::external_body]
fn char_is_control(c: char) -> (r: bool)
    ensures
        r == is_control_spec(c),
{
    c.is_control()
}

/// Relies on `char::is_whitespace`: true exactly for the White_Space property.
#[verifier::external_body]
fn char_is_whitespace(c: char) -> (r: bool)
    ensures
        r == is_whitespace_spec(c),
{
    c.is_whitespace()
}

/// Relies on `String::push`: appends one character.
#[verifier::external_body]
fn push_char(s: &mut String, c: char)
    ensures
        final(s)@ == old(s)@.push(c),
{
    s.push(c)
}

pub open spec fn has_disallowed(s: Seq<char>) -> bool {
    exists|i: int| 0 <= i < s.len() && is_disallowed(#[trigger] s[i])
}

/// The name is longer than allowed, counted in UTF-8 bytes of the input.
pub open spec fn too_long(input: Seq<char>) -> bool {
    encode_utf8(input).len() > MAX_RESOURCE_NAME_LENGTH
}

/// What validation makes of a name: its NFC form, or nothing when the input
/// is too long or its NFC form holds a control or whitespace character.
pub open spec fn validated(input: Seq<char>) -> Option<Seq<char>> {
    if too_long(input) || has_disallowed(nfc_of(input)) {
        None
    } else {
        Some(nfc_of(input))
    }
}

/// One lowercase hexadecimal digit for `n < 16`.
pub open spec fn hex_digit(n: int) -> char {
    if n < 10 {
        (n + 48) as char
    } else {
        (n + 87) as char
    }
}

/// Two lowercase hexadecimal digits per byte, high nibble first.
pub open spec fn hex_of(bytes: Seq<u8>) -> Seq<char> {
    Seq::new(
        2 * bytes.len(),
        |j: int|
            if j % 2 == 0 {
                hex_digit(bytes[j / 2] as int / 16)
            } else {
                hex_digit(bytes[j / 2] as int % 16)
            },
    )
}

/// The key of a normalized name: the hex form of the first bytes of the
/// SHA3-256 digest of its UTF-8 encoding.
pub open spec fn key_of(normalized: Seq<char>) -> Seq<char> {
    hex_of(sha3_256_of(encode_utf8(normalized)).subrange(0, KEY_DIGEST_BYTES as int))
}

/// What `derive_key` gives for a raw name.
pub open spec fn derived_key(raw_name: Seq<char>) -> Option<Seq<char>> {
    match validated(raw_name) {
        Some(n) => Some(key_of(n)),
        None => None,
    }
}

/// The marker for a name that fails validation.
#[derive(Debug, Clone, Copy, PartialEq, Eq, Structural)]
pub struct Rejected;

fn hex_digit_exec(n: u8) -> (c: char)
    requires
        n < 16,
    ensures
        c == hex_digit(n as int),
{
    if n < 10 {
        (n + 48) as char
    } else {
        (n + 87) as char
    }
}

/// Whether `s` holds a control or whitespace character.
pub fn has_disallowed_char(s: &str) -> (r: bool)
    ensures
        r == has_disallowed(s@),
{
    let n = s.unicode_len();
    let mut i: usize = 0;
    while i < n
        invariant
            n == s@.len(),
            i <= n,
            forall|j: int| 0 <= j < i ==> !is_disallowed(#[trigger] s@[j]),
        decreases n - i,
    {
        let c = s.get_char(i);
        if char_is_control(c) || char_is_whitespace(c) {
            return true;
        }
        i = i + 1;
    }
    false
}

/// Checks a name: `None` when it is longer than the limit (in UTF-8 bytes of
/// the input) or its NFC form holds a control or whitespace character;
/// otherwise its NFC form.
pub fn validate_input(input: &str) -> (r: Option<String>)
    ensures
        match r {
            Some(s) => validated(input@) == Some(s@),
            None => validated(input@) is None,
        },
{
    if input.as_bytes().len() > MAX_RESOURCE_NAME_LENGTH {
        return None;
    }
    let normalized_input = nfc(input);
    if has_disallowed_char(normalized_input.as_str()) {
        None
    } else {
        Some(normalized_input)
    }
}

/// Renders the leading digest bytes as a key.
pub fn key_from_digest(digest: &[u8]) -> (r: String)
    requires
        digest@.len() >= KEY_DIGEST_BYTES,
    ensures
        r@ == hex_of(digest@.subrange(0, KEY_DIGEST_BYTES as int)),
{
    let ghost bytes = digest@.subrange(0, KEY_DIGEST_BYTES as int);
    let mut out = String::new();
    let mut i: usize = 0;
    while i < KEY_DIGEST_BYTES
        invariant
            i <= KEY_DIGEST_BYTES,
            digest@.len() >= KEY_DIGEST_BYTES,
            bytes == digest@.subrange(0, KEY_DIGEST_BYTES as int),
            out@.len() == 2 * i,
            forall|j: int| 0 <= j < 2 * i ==> #[trigger] out@[j] == hex_of(bytes)[j],
        decreases KEY_DIGEST_BYTES - i,
    {
        let b = digest[i];
        push_char(&mut out, hex_digit_exec(b / 16));
        push_char(&mut out, hex_digit_exec(b % 16));
        i = i + 1;
    }
    assert(out@ =~= hex_of(bytes));
    out
}

/// Hashes a normalized name into its key.
pub fn hash(s: String) -> (r: String)
    ensures
        r@ == key_of(s@),
        r@.len() == 2 * KEY_DIGEST_BYTES,
{
    let digest = sha3_256(s.as_str().as_bytes());
    key_from_digest(digest.as_slice())
}

/// Validates a raw name and hashes its normalized form into a key.
pub fn derive_key(raw_name: &str) -> (r: Result<String, Rejected>)
    ensures
        match r {
            Ok(k) => derived_key(raw_name@) == Some(k@) && k@.len() == 2 * KEY_DIGEST_BYTES,
            Err(_) => derived_key(raw_name@) is None,
        },
{
    match validate_input(raw_name) {
        Some(s) => Ok(hash(s)),
        None => Err(Rejected),
    }
}

/// A name longer than the limit is rejected, whatever it holds.
pub proof fn lemma_too_long_rejected(raw_name: Seq<char>)
    requires
        too_long(raw_name),
    ensures
        derived_key(raw_name) is None,
{
}

/// A name whose NFC form holds a control or whitespace character is rejected.
pub proof fn lemma_disallowed_rejected(raw_name: Seq<char>)
    requires
        has_disallowed(nfc_of(raw_name)),
    ensures
        derived_key(raw_name) is None,
{
}

/// Deriving a key twice from the same name gives the same outcome.
pub proof fn lemma_derive_key_deterministic(a: Seq<char>, b: Seq<char>)
    requires
        a == b,
    ensures
        derived_key(a) == derived_key(b),
{
}

} // verus!
