//! The durable hash: lower-case hex of the SHA-256 of the stored bytes.

use sha2::Digest;
use vstd::prelude::*;

verus! {

/// The SHA-256 digest of `data`, as `sha2::Sha256` computes it.
pub uninterp spec fn sha256(data: Seq<u8>) -> Seq<u8>;

/// The lower-case hexadecimal digit of `d`, for `d` below sixteen.
pub open spec fn hex_digit(d: int) -> char {
    if d < 10 {
        ('0' as int + d) as char
    } else {
        ('a' as int + (d - 10)) as char
    }
}

/// The lower-case hexadecimal text of `data`: two digits for each byte, the
/// high half first.
pub open spec fn hex_text(data: Seq<u8>) -> Seq<char> {
    Seq::new(
        2 * data.len(),
        |i: int|
            if i % 2 == 0 {
                hex_digit(data[i / 2] as int / 16)
            } else {
                hex_digit(data[i / 2] as int % 16)
            },
    )
}

/// The hash under which `body` can be checked once it is stored.
pub open spec fn durable_hash_of(body: Seq<u8>) -> Seq<char> {
    hex_text(sha256(body))
}

/// Calls `Sha256::digest` of the crate `sha2`. Claims that the result is a
/// function of the bytes alone, named [`sha256`]; that it has 32 bytes is in
/// its type.
#[verifier::external_body]
fn sha256_digest(data: &[u8]) -> (digest: [u8; 32])
    ensures
        digest@ == sha256(data@),
{
    sha2::Sha256::digest(data).into()
}

/// Calls `hex::encode`. Claims that it writes each byte as two lower-case
/// hexadecimal digits, the high half first.
#[verifier::external_body]
fn hex_encode(data: &[u8]) -> (text: String)
    ensures
        text@ == hex_text(data@),
{
    hex::encode(data)
}

/// The durable hash of `body`: 64 lower-case hexadecimal digits.
pub fn durable_hash(body: &[u8]) -> (hash: String)
    ensures
        hash@ == durable_hash_of(body@),
        hash@.len() == 64,
        sha256(body@).len() == 32,
        forall|i: int|
            #![trigger sha256(body@)[i]]
            0 <= i < 32 ==> hash@[2 * i] == "0123456789abcdef"@[sha256(body@)[i] as int / 16]
                && hash@[2 * i + 1] == "0123456789abcdef"@[sha256(body@)[i] as int % 16],
{
    let digest = sha256_digest(body);
    proof {
        law_hash_spells_the_digest(body@);
    }
    hex_encode(digest.as_slice())
}

/// The hash writes the digest byte by byte: for each byte its high and then
/// its low hexadecimal digit, in lower case, and nothing else.
pub proof fn law_hash_spells_the_digest(body: Seq<u8>)
    ensures
        durable_hash_of(body).len() == 2 * sha256(body).len(),
        forall|i: int|
            #![trigger sha256(body)[i]]
            0 <= i < sha256(body).len() ==> durable_hash_of(body)[2 * i]
                == "0123456789abcdef"@[sha256(body)[i] as int / 16] && durable_hash_of(body)[2 * i
                + 1] == "0123456789abcdef"@[sha256(body)[i] as int % 16],
{
    reveal_strlit("0123456789abcdef");
    assert forall|i: int|
        #![trigger sha256(body)[i]]
        0 <= i < sha256(body).len() implies durable_hash_of(body)[2 * i]
        == "0123456789abcdef"@[sha256(body)[i] as int / 16] && durable_hash_of(body)[2 * i + 1]
        == "0123456789abcdef"@[sha256(body)[i] as int % 16] by {
        assert((2 * i) / 2 == i && (2 * i + 1) / 2 == i);
    }
}

proof fn lemma_hex_digit_injective(a: int, b: int)
    requires
        0 <= a < 16,
        0 <= b < 16,
        hex_digit(a) == hex_digit(b),
    ensures
        a == b,
{
}

/// The hash text loses nothing of the digest: two bodies have the same
/// durable hash exactly if they have the same SHA-256 digest.
pub proof fn law_durable_hash_is_the_digest(body_1: Seq<u8>, body_2: Seq<u8>)
    ensures
        durable_hash_of(body_1) == durable_hash_of(body_2) <==> sha256(body_1) == sha256(body_2),
{
    let d1 = sha256(body_1);
    let d2 = sha256(body_2);
    if durable_hash_of(body_1) == durable_hash_of(body_2) {
        assert(durable_hash_of(body_1).len() == 2 * d1.len());
        assert(durable_hash_of(body_2).len() == 2 * d2.len());
        assert forall|i: int| 0 <= i < d1.len() implies d1[i] == d2[i] by {
            assert(hex_text(d1)[2 * i] == hex_text(d2)[2 * i]);
            assert(hex_text(d1)[2 * i + 1] == hex_text(d2)[2 * i + 1]);
            assert((2 * i) / 2 == i && (2 * i + 1) / 2 == i);
            lemma_hex_digit_injective(d1[i] as int / 16, d2[i] as int / 16);
            lemma_hex_digit_injective(d1[i] as int % 16, d2[i] as int % 16);
        }
        assert(d1 == d2);
    }
}

} // verus!
