//! Key formatting for the encrypted database and wiping of key text.

use vstd::prelude::*;
use vstd::string::*;
use vstd::utf8::encode_utf8;
use crate::text::{hex_of, push_hex};

verus! {

/// The SQLCipher raw-key literal for a key: `x'` then two lower-case hex
/// digits per byte, then `'`.
pub open spec fn sqlcipher_key_text(key: Seq<u8>) -> Seq<char> {
    "x'"@ + hex_of(key) + "'"@
}

/// Formats key bytes as a SQLCipher raw-key literal, e.g. `x'abcdef01'`.
pub fn format_sqlcipher_key(key_bytes: &[u8]) -> (s: String)
    ensures
        s@ == sqlcipher_key_text(key_bytes@),
{
    let mut s = String::from_str("x'");
    push_hex(&mut s, key_bytes);
    s.append("'");
    s
}

/// Overwrites every byte of a string with zero in place
/// (`Zeroize::zeroize` on `str`).
///
/// The string keeps its length in bytes; each byte becomes a NUL character.
#[verifier::external_body]
fn zeroize_str(s: &mut String)
    ensures
        final(s)@ == Seq::new(encode_utf8(old(s)@).len(), |i: int| '\0'),
{
    zeroize::Zeroize::zeroize(s.as_mut_str());
}

/// Wipes a string holding key material: every byte becomes zero and the
/// length in bytes is kept.
pub fn zeroize_string(s: &mut String)
    ensures
        final(s)@ == Seq::new(encode_utf8(old(s)@).len(), |i: int| '\0'),
{
    zeroize_str(s);
}

} // verus!
