//! Base64 (standard alphabet, with padding) and URL percent-encoding, as the `base64`
//! and `urlencoding` crates compute them.

use base64::Engine;
use vstd::prelude::*;
use vstd::string::StringSliceAdditionalSpecFns;
use crate::text::is_white_space;

verus! {

/// The Base64 symbol of a six-bit value, in the standard alphabet.
pub open spec fn base64_symbol(v: int) -> char {
    if v < 26 {
        (('A' as int) + v) as char
    } else if v < 52 {
        (('a' as int) + (v - 26)) as char
    } else if v < 62 {
        (('0' as int) + (v - 52)) as char
    } else if v == 62 {
        '+'
    } else {
        '/'
    }
}

/// The standard Base64 encoding of `b`: each group of three bytes becomes four symbols,
/// and a last group of one or two bytes is padded with `=` to four.
pub open spec fn base64_encoding(b: Seq<u8>) -> Seq<char>
    decreases b.len(),
{
    if b.len() == 0 {
        Seq::empty()
    } else {
        let b0 = b[0] as int;
        if b.len() == 1 {
            seq![base64_symbol(b0 / 4), base64_symbol((b0 % 4) * 16), '=', '=']
        } else {
            let b1 = b[1] as int;
            if b.len() == 2 {
                seq![
                    base64_symbol(b0 / 4),
                    base64_symbol((b0 % 4) * 16 + b1 / 16),
                    base64_symbol((b1 % 16) * 4),
                    '=',
                ]
            } else {
                let b2 = b[2] as int;
                seq![
                    base64_symbol(b0 / 4),
                    base64_symbol((b0 % 4) * 16 + b1 / 16),
                    base64_symbol((b1 % 16) * 4 + b2 / 64),
                    base64_symbol(b2 % 64),
                ] + base64_encoding(b.skip(3))
            }
        }
    }
}

/// A Base64 symbol is never whitespace.
proof fn lemma_symbol_not_white_space(v: int)
    requires
        0 <= v < 64,
    ensures
        !is_white_space(base64_symbol(v)),
{
}

/// A Base64 encoding holds no whitespace.
pub proof fn lemma_base64_no_white_space(b: Seq<u8>)
    ensures
        forall|i: int| 0 <= i < base64_encoding(b).len() ==> !is_white_space(#[trigger] base64_encoding(b)[i]),
    decreases b.len(),
{
    if b.len() > 0 {
        let b0 = b[0] as int;
        lemma_symbol_not_white_space(b0 / 4);
        if b.len() == 1 {
            lemma_symbol_not_white_space((b0 % 4) * 16);
        } else {
            let b1 = b[1] as int;
            lemma_symbol_not_white_space((b0 % 4) * 16 + b1 / 16);
            if b.len() == 2 {
                lemma_symbol_not_white_space((b1 % 16) * 4);
            } else {
                let b2 = b[2] as int;
                lemma_symbol_not_white_space((b1 % 16) * 4 + b2 / 64);
                lemma_symbol_not_white_space(b2 % 64);
                lemma_base64_no_white_space(b.skip(3));
                let head = seq![
                    base64_symbol(b0 / 4),
                    base64_symbol((b0 % 4) * 16 + b1 / 16),
                    base64_symbol((b1 % 16) * 4 + b2 / 64),
                    base64_symbol(b2 % 64),
                ];
                let tail = base64_encoding(b.skip(3));
                assert forall|i: int| 0 <= i < (head + tail).len() implies !is_white_space(#[trigger] (head + tail)[i]) by {
                    if i >= 4 {
                        assert((head + tail)[i] == tail[i - 4]);
                    }
                }
            }
        }
    }
}

/// Encodes bytes in standard Base64 with padding (`Engine::encode` on
/// `base64::engine::general_purpose::STANDARD`). The crate computes the output length
/// with checked arithmetic and panics on overflow, which no slice held in memory reaches;
/// the bound below says so.
#[verifier::external_body]
pub(crate) fn base64_encode(bytes: &[u8]) -> (r: String)
    requires
        bytes@.len() <= usize::MAX / 2,
    ensures
        r@ == base64_encoding(bytes@),
{
    base64::engine::general_purpose::STANDARD.encode(bytes)
}

/// Decodes standard Base64 with padding (`Engine::decode` on
/// `base64::engine::general_purpose::STANDARD`). That engine requires canonical padding
/// and refuses set trailing bits, so it accepts exactly the encodings of byte strings:
/// what it returns encodes back to the input, and the encoding of any bytes decodes back
/// to them. Any decoding error comes back as `None`.
#[verifier::external_body]
pub(crate) fn base64_decode(text: &str) -> (r: Option<Vec<u8>>)
    ensures
        r is Some ==> base64_encoding(r->0@) == text@,
        forall|b: Seq<u8>| #[trigger] base64_encoding(b) == text@ ==> (r is Some && r->0@ == b),
{
    base64::engine::general_purpose::STANDARD.decode(text).ok()
}

/// A byte that URL encoding leaves as it is: ASCII letters and digits, `-`, `.`, `_`
/// and `~`.
pub open spec fn url_unreserved(b: u8) -> bool {
    ||| (48 <= b && b <= 57)
    ||| (65 <= b && b <= 90)
    ||| (97 <= b && b <= 122)
    ||| b == 45
    ||| b == 46
    ||| b == 95
    ||| b == 126
}

/// The upper-case hexadecimal digit of a value below sixteen.
pub open spec fn hex_upper(d: int) -> char {
    if d < 10 {
        (('0' as int) + d) as char
    } else {
        (('A' as int) + (d - 10)) as char
    }
}

/// Percent-encoding of bytes: every byte but the unreserved ones becomes `%` and two
/// upper-case hexadecimal digits.
pub open spec fn percent_encoding(b: Seq<u8>) -> Seq<char>
    decreases b.len(),
{
    if b.len() == 0 {
        Seq::empty()
    } else {
        let last = b.last();
        percent_encoding(b.drop_last()) + if url_unreserved(last) {
            seq![(last as int) as char]
        } else {
            seq!['%', hex_upper((last / 16) as int), hex_upper((last % 16) as int)]
        }
    }
}

/// Percent-encodes the UTF-8 bytes of a text (`urlencoding::encode`).
#[verifier::external_body]
pub(crate) fn url_encode(data: &str) -> (r: String)
    ensures
        r@ == percent_encoding(data.spec_bytes()),
{
    urlencoding::encode(data).into_owned()
}

} // verus!
