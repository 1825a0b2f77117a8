//! Content digests.

use crate::text::from_chars;
use vstd::prelude::*;
use vstd::utf8::encode_utf8;

verus! {

/// The MD5 digest of a sequence of bytes.
pub uninterp spec fn md5_digest(data: Seq<u8>) -> Seq<u8>;

/// Wraps `md5::compute`: the sixteen bytes of the digest of `data`.
#[verifier::external_body]
fn md5_compute(data: &[u8]) -> (digest: [u8; 16])
    ensures
        digest@ == md5_digest(data@),
{
    md5::compute(data).0
}

/// The lower-case hexadecimal digit of a number below sixteen.
pub open spec fn hex_digit(n: int) -> char {
    if n < 10 {
        (48 + n) as char
    } else {
        (87 + n) as char
    }
}

/// The bytes in lower-case hexadecimal, two digits for each byte.
pub open spec fn hex_lower(bytes: Seq<u8>) -> Seq<char> {
    Seq::new(
        2 * bytes.len(),
        |i: int|
            if i % 2 == 0 {
                hex_digit(bytes[i / 2] as int / 16)
            } else {
                hex_digit(bytes[i / 2] as int % 16)
            },
    )
}

fn hex_char(n: u8) -> (c: char)
    requires
        n < 16,
    ensures
        c == hex_digit(n as int),
{
    let code: u8 = if n < 10 {
        48 + n
    } else {
        87 + n
    };
    code as char
}

/// Writes bytes in lower-case hexadecimal.
pub fn hex_string(bytes: &[u8]) -> (s: String)
    ensures
        s@ == hex_lower(bytes@),
{
    let mut out: Vec<char> = Vec::new();
    let mut i: usize = 0;
    while i < bytes.len()
        invariant
            i <= bytes.len(),
            out@ == hex_lower(bytes@.take(i as int)),
        decreases bytes.len() - i,
    {
        let b = bytes[i];
        out.push(hex_char(b / 16));
        out.push(hex_char(b % 16));
        proof {
            let next = bytes@.take(i as int + 1);
            let prev = bytes@.take(i as int);
            assert forall|k: int| 0 <= k < out@.len() implies out@[k] == hex_lower(next)[k] by {
                if k < 2 * i {
                    assert(hex_lower(prev)[k] == hex_lower(next)[k]) by {
                        assert(prev[k / 2] == next[k / 2]);
                    }
                }
            }
            assert(out@ =~= hex_lower(next));
        }
        i = i + 1;
    }
    proof {
        assert(bytes@.take(bytes.len() as int) == bytes@);
    }
    from_chars(&out)
}

/// The MD5 digest of a text's UTF-8 bytes, in lower-case hexadecimal.
pub fn get_md5_string(message: &str) -> (digest: String)
    ensures
        digest@ == hex_lower(md5_digest(encode_utf8(message@))),
{
    let raw = md5_compute(message.as_bytes());
    hex_string(raw.as_slice())
}

} // verus!
