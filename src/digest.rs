//! The identity digest: MD5 of the trimmed, lowercased email, in lowercase hex.

use crypto::digest::Digest;
use crypto::md5::Md5;
use vstd::prelude::*;

verus! {

/// Unicode `White_Space`, the set that `char::is_whitespace` tests.
pub open spec fn is_white_space(c: char) -> bool {
    let n = c as u32;
    (0x9 <= n && n <= 0xd) || n == 0x20 || n == 0x85 || n == 0xa0 || n == 0x1680 || (0x2000 <= n
        && n <= 0x200a) || n == 0x2028 || n == 0x2029 || n == 0x202f || n == 0x205f || n == 0x3000
}

pub open spec fn all_white_space(s: Seq<char>) -> bool {
    forall|i: int| 0 <= i < s.len() ==> is_white_space(#[trigger] s[i])
}

/// `s` without its leading white space.
pub open spec fn trim_start(s: Seq<char>) -> Seq<char>
    decreases s.len(),
{
    if s.len() > 0 && is_white_space(s[0]) {
        trim_start(s.drop_first())
    } else {
        s
    }
}

/// `s` without its trailing white space.
pub open spec fn trim_end(s: Seq<char>) -> Seq<char>
    decreases s.len(),
{
    if s.len() > 0 && is_white_space(s.last()) {
        trim_end(s.drop_last())
    } else {
        s
    }
}

pub open spec fn trimmed(s: Seq<char>) -> Seq<char> {
    trim_end(trim_start(s))
}

/// What `str::to_lowercase` makes of a text.
pub uninterp spec fn lower_of(s: Seq<char>) -> Seq<char>;

/// The MD5 digest of a text's UTF-8 bytes, as rust-crypto renders it in hex.
pub uninterp spec fn md5_hex_of(s: Seq<char>) -> Seq<char>;

pub open spec fn is_lower_hex(c: char) -> bool {
    ('0' <= c && c <= '9') || ('a' <= c && c <= 'f')
}

/// The form of an email that the service hashes.
pub open spec fn normalized(email: Seq<char>) -> Seq<char> {
    lower_of(trimmed(email))
}

/// The digest that names the avatar of `email`.
pub open spec fn digest_of(email: Seq<char>) -> Seq<char> {
    md5_hex_of(normalized(email))
}

/// Relies on `str::trim`: leading and trailing characters with the Unicode
/// `White_Space` property are removed, nothing else.
#[verifier::external_body]
fn trim_white_space<'a>(s: &'a str) -> (r: &'a str)
    ensures
        r@ == trimmed(s@),
{
    s.trim()
}

/// Relies on `str::to_lowercase`: the result depends on the text alone.
#[verifier::external_body]
fn lowercase(s: &str) -> (r: String)
    ensures
        r@ == lower_of(s@),
{
    s.to_lowercase()
}

/// Relies on rust-crypto's `Md5` through `Digest::input_str` and
/// `Digest::result_str`: the 128-bit digest of the UTF-8 bytes, written as 32
/// lowercase hexadecimal digits (rustc-serialize's `to_hex`).
#[verifier::external_body]
fn md5_hex(s: &str) -> (r: String)
    ensures
        r@ == md5_hex_of(s@),
        r@.len() == 32,
        forall|i: int| 0 <= i < r@.len() ==> is_lower_hex(#[trigger] r@[i]),
{
    let mut hasher = Md5::new();
    hasher.input_str(s);
    hasher.result_str()
}

/// The 32-digit lowercase hexadecimal digest of the trimmed, lowercased email.
pub fn email_digest(email: &str) -> (r: String)
    ensures
        r@ == digest_of(email@),
        r@.len() == 32,
        forall|i: int| 0 <= i < r@.len() ==> is_lower_hex(#[trigger] r@[i]),
{
    let t = trim_white_space(email);
    let lower = lowercase(t);
    md5_hex(lower.as_str())
}

} // verus!
