//! SHA-256 digests of evidence bytes, rendered as lowercase hexadecimal.
use vstd::prelude::*;

use sha2::Digest;

use crate::text::{join, owned};

verus! {

/// The SHA-256 digest (FIPS 180-4) of `data`.
pub uninterp spec fn sha256(data: Seq<u8>) -> Seq<u8>;

/// `<sha2::Sha256 as digest::Digest>::digest`: the 32-byte SHA-256 digest of
/// `data`. The contract claims exactly that the bytes are the digest of the
/// input and that there are 32 of them (the output size `U32` of `Sha256`).
#[verifier::external_body]
fn sha256_digest(data: &[u8]) -> (r: Vec<u8>)
    ensures
        r@ == sha256(data@),
        r@.len() == 32,
{
    sha2::Sha256::digest(data).to_vec()
}

pub open spec fn hex_digit(n: u8) -> char {
    if n < 10 {
        (('0' as u8) + n) as char
    } else {
        (('a' as u8) + (n - 10)) as char
    }
}

/// Two lowercase hexadecimal digits per byte, high nibble first.
pub open spec fn lower_hex(bytes: Seq<u8>) -> Seq<char>
    decreases bytes.len(),
{
    if bytes.len() == 0 {
        seq![]
    } else {
        lower_hex(bytes.drop_last()) + seq![
            hex_digit(bytes.last() / 16),
            hex_digit(bytes.last() % 16),
        ]
    }
}

/// A lowercase hexadecimal character: `0`-`9` or `a`-`f`.
pub open spec fn is_lower_hex_char(c: char) -> bool {
    ('0' <= c <= '9') || ('a' <= c <= 'f')
}

/// The shape of a rendered SHA-256 digest: 64 lowercase hexadecimal
/// characters.
pub open spec fn is_lower_hex_digest(s: Seq<char>) -> bool {
    &&& s.len() == 64
    &&& forall|i: int| 0 <= i < s.len() ==> is_lower_hex_char(#[trigger] s[i])
}

fn hex_digit_text(n: u8) -> (r: &'static str)
    requires
        n < 16,
    ensures
        r@ == seq![hex_digit(n)],
{
    proof {
        reveal_strlit("0");
        reveal_strlit("1");
        reveal_strlit("2");
        reveal_strlit("3");
        reveal_strlit("4");
        reveal_strlit("5");
        reveal_strlit("6");
        reveal_strlit("7");
        reveal_strlit("8");
        reveal_strlit("9");
        reveal_strlit("a");
        reveal_strlit("b");
        reveal_strlit("c");
        reveal_strlit("d");
        reveal_strlit("e");
        reveal_strlit("f");
    }
    match n {
        0 => "0",
        1 => "1",
        2 => "2",
        3 => "3",
        4 => "4",
        5 => "5",
        6 => "6",
        7 => "7",
        8 => "8",
        9 => "9",
        10 => "a",
        11 => "b",
        12 => "c",
        13 => "d",
        14 => "e",
        _ => "f",
    }
}

/// Lowercase hexadecimal rendering of `bytes` (as `format!("{:x}", ..)`
/// renders a digest).
pub fn to_lower_hex(bytes: &[u8]) -> (r: String)
    ensures
        r@ == lower_hex(bytes@),
{
    let mut text = owned("");
    proof {
        reveal_strlit("");
    }
    let n = bytes.len();
    let mut i: usize = 0;
    while i < n
        invariant
            n == bytes@.len(),
            i <= n,
            text@ == lower_hex(bytes@.take(i as int)),
        decreases n - i,
    {
        let b = bytes[i];
        text = join(text, hex_digit_text(b / 16));
        text = join(text, hex_digit_text(b % 16));
        assert(bytes@.take(i + 1).drop_last() =~= bytes@.take(i as int));
        i = i + 1;
    }
    assert(bytes@.take(n as int) =~= bytes@);
    text
}

/// The SHA-256 digest of `data` as 64 lowercase hexadecimal characters.
pub fn sha256_hex(data: &[u8]) -> (r: String)
    ensures
        r@ == lower_hex(sha256(data@)),
        is_lower_hex_digest(r@),
{
    let digest = sha256_digest(data);
    proof {
        lemma_lower_hex_shape(digest@);
    }
    to_lower_hex(digest.as_slice())
}

/// The lowercase rendering of any byte string has two characters per byte,
/// all of them lowercase hexadecimal digits.
pub proof fn lemma_lower_hex_shape(bytes: Seq<u8>)
    ensures
        lower_hex(bytes).len() == 2 * bytes.len(),
        forall|i: int| 0 <= i < lower_hex(bytes).len() ==> is_lower_hex_char(
            #[trigger] lower_hex(bytes)[i],
        ),
    decreases bytes.len(),
{
    if bytes.len() > 0 {
        lemma_lower_hex_shape(bytes.drop_last());
        let b = bytes.last();
        assert(is_lower_hex_char(hex_digit(b / 16)));
        assert(is_lower_hex_char(hex_digit(b % 16)));
    }
}

} // verus!
