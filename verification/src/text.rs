//! Paths and texts: what the standard library computes for the resolver, and
//! under which names the contracts speak of it.

use std::hash::BuildHasher;
use vstd::prelude::*;
use vstd::utf8::{decode_utf8, valid_utf8};

verus! {

/// The path that the standard library makes of `name` adjoined to `base`, on
/// the Unix-like hosts that this library is for.
pub uninterp spec fn joined(base: Seq<char>, name: Seq<char>) -> Seq<char>;

/// The digest that the standard library's default hasher gives a path.
pub uninterp spec fn path_digest(path: Seq<char>) -> u64;

/// `text` without its leading and trailing white space.
pub uninterp spec fn trimmed(text: Seq<char>) -> Seq<char>;

/// The text that `bytes` encode, with a replacement character wherever they
/// are not UTF-8.
pub uninterp spec fn lossy_text(bytes: Seq<u8>) -> Seq<char>;

/// The character of a decimal digit.
pub open spec fn digit(value: nat) -> char
    recommends
        value < 10,
{
    (value + 48) as char
}

/// The decimal numeral of `value`, without leading zeros.
pub open spec fn decimal(value: nat) -> Seq<char>
    decreases value,
{
    if value < 10 {
        seq![digit(value)]
    } else {
        decimal(value / 10).push(digit(value % 10))
    }
}

/// Calls `std::path::Path::join`. Trusted: the result is the path that the
/// contracts call `joined(base, name)`; nothing is claimed of its shape.
#[verifier::external_body]
pub(crate) fn join_path(base: &str, name: &str) -> (path: String)
    ensures
        path@ == joined(base@, name@),
{
    std::path::Path::new(base).join(name).to_string_lossy().into_owned()
}

/// Calls `std::hash::BuildHasher::hash_one` on a default-built
/// `std::collections::hash_map::DefaultHasher`, with `path` taken as a
/// `std::path::Path`. Trusted: the result is the digest that the contracts
/// call `path_digest(path)`. Such a hasher is built with fixed keys, so equal
/// paths have equal digests.
#[verifier::external_body]
pub(crate) fn digest_path(path: &str) -> (digest: u64)
    ensures
        digest == path_digest(path@),
{
    std::hash::BuildHasherDefault::<std::collections::hash_map::DefaultHasher>::default().hash_one(
        std::path::Path::new(path),
    )
}

/// Calls `str::trim`. Trusted: the result is the text that the contracts call
/// `trimmed(text)`, and, being a slice of `text`, it is no longer than `text`.
#[verifier::external_body]
pub(crate) fn trim_text(text: &str) -> (inner: String)
    ensures
        inner@ == trimmed(text@),
        inner@.len() <= text@.len(),
{
    text.trim().to_owned()
}

/// Calls `String::from_utf8`. Trusted: it succeeds exactly on valid UTF-8,
/// and the text then holds the characters that the bytes encode.
#[verifier::external_body]
pub(crate) fn text_of(bytes: &[u8]) -> (text: Option<String>)
    ensures
        text is Some <==> valid_utf8(bytes@),
        text matches Some(t) ==> t@ == decode_utf8(bytes@),
{
    String::from_utf8(bytes.to_vec()).ok()
}

/// Calls `String::from_utf8_lossy`. Trusted: the result is the text that the
/// contracts call `lossy_text(bytes)`, which for valid UTF-8 holds the
/// characters that the bytes encode.
#[verifier::external_body]
pub(crate) fn lossy(bytes: &[u8]) -> (text: String)
    ensures
        text@ == lossy_text(bytes@),
        valid_utf8(bytes@) ==> text@ == decode_utf8(bytes@),
{
    String::from_utf8_lossy(bytes).into_owned()
}

/// Calls `ToString::to_string` on a `u64`. Trusted: the result is the decimal
/// numeral of `value`.
#[verifier::external_body]
pub(crate) fn decimal_text(value: u64) -> (numeral: String)
    ensures
        numeral@ == decimal(value as nat),
{
    value.to_string()
}

} // verus!
