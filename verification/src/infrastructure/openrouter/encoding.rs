//! Base64 encoding of audio, done by the `base64` crate.
use vstd::prelude::*;

verus! {

/// The character of the standard Base64 alphabet (RFC 4648, table 1) for a
/// six-bit value.
pub open spec fn base64_char(v: int) -> char {
    "ABCDEFGHIJKLMNOPQRSTUVWXYZabcdefghijklmnopqrstuvwxyz0123456789+/"@[v]
}

/// Standard Base64 with `=` padding (RFC 4648, section 4): each group of
/// three bytes becomes four characters; a final group of one or two bytes is
/// padded to four characters with `=`.
pub open spec fn base64_encoding(b: Seq<u8>) -> Seq<char>
    decreases b.len(),
{
    if b.len() == 0 {
        Seq::empty()
    } else {
        let b0 = b[0] as int;
        let b1 = if b.len() > 1 { b[1] as int } else { 0 };
        let b2 = if b.len() > 2 { b[2] as int } else { 0 };
        if b.len() == 1 {
            seq![base64_char(b0 / 4), base64_char((b0 % 4) * 16), '=', '=']
        } else if b.len() == 2 {
            seq![
                base64_char(b0 / 4),
                base64_char((b0 % 4) * 16 + b1 / 16),
                base64_char((b1 % 16) * 4),
                '=',
            ]
        } else {
            seq![
                base64_char(b0 / 4),
                base64_char((b0 % 4) * 16 + b1 / 16),
                base64_char((b1 % 16) * 4 + b2 / 64),
                base64_char(b2 % 64),
            ] + base64_encoding(b.subrange(3, b.len() as int))
        }
    }
}

/// The length of the padded encoding of `n` bytes.
pub open spec fn base64_len(n: nat) -> nat {
    4 * ((n + 2) / 3)
}

/// Encodes bytes with `base64::prelude::BASE64_STANDARD` (`Engine::encode`).
///
/// Trusted: the `base64` crate's standard engine writes the RFC 4648
/// alphabet with `=` padding, which `base64_encoding` states. `encode`
/// panics only when the encoded length overflows `usize`, which `requires`
/// rules out.
#[verifier::external_body]
pub(crate) fn base64_standard(bytes: &[u8]) -> (r: String)
    requires
        base64_len(bytes@.len()) <= usize::MAX,
    ensures
        r@ == base64_encoding(bytes@),
{
    base64::Engine::encode(&base64::prelude::BASE64_STANDARD, bytes)
}

/// The encoding of `n` bytes has `4 * ceil(n / 3)` characters.
pub proof fn lemma_base64_len(b: Seq<u8>)
    ensures
        base64_encoding(b).len() == base64_len(b.len()),
    decreases b.len(),
{
    if b.len() > 2 {
        lemma_base64_len(b.subrange(3, b.len() as int));
    }
}

} // verus!
