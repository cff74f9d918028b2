//! The outside crates that the store leans on for its blobs and names:
//! SHA-256 digests, hexadecimal text, gzip streams and the canonical text of
//! a 128-bit identity. Each call stands behind one function whose contract
//! is trusted rather than proved.

use crate::text::hex_lower;
use sha2::Digest;
use std::io::Read;
use std::io::Write;
use vstd::prelude::*;

verus! {

/// `std::io::Error`, the error of the compressor and the decompressor.
/// Nothing is claimed of what it holds.
#[verifier::external_type_specification]
#[verifier::external_body]
pub struct ExIoError(std::io::Error);

/// The SHA-256 digest of a byte string.
pub uninterp spec fn sha256(data: Seq<u8>) -> Seq<u8>;

/// The gzip stream that the encoder writes for a byte string, at its default
/// compression level and with its default header; `None` where the encoder
/// reports an error for these bytes.
pub uninterp spec fn gzip(data: Seq<u8>) -> Option<Seq<u8>>;

/// The text that a gzip stream unpacks to; `None` where the stream is
/// damaged or what it holds is no UTF-8.
pub uninterp spec fn gunzip_text(stream: Seq<u8>) -> Option<Seq<char>>;

/// `sha2::Sha256::digest`. Trusted: the result is the digest of `data`, a
/// function of the bytes alone, and is 32 bytes long, as the type of the
/// hasher fixes it.
#[verifier::external_body]
pub(crate) fn sha256_digest(data: &[u8]) -> (digest: Vec<u8>)
    ensures
        digest@ == sha256(data@),
        digest@.len() == 32,
{
    sha2::Sha256::digest(data).to_vec()
}

/// `hex::encode`. Trusted: each byte becomes two lower-case hexadecimal
/// digits, the high half first, in the order of the bytes.
#[verifier::external_body]
pub(crate) fn hex_encode(data: &[u8]) -> (text: String)
    ensures
        text@ == hex_lower(data@),
{
    hex::encode(data)
}

/// `flate2::write::GzEncoder` over a vector, fed `data` and finished.
/// Trusted: the encoder writes to memory, so whether it reports an error
/// and what it writes depend on the bytes of `data` alone; where it
/// reports none, what it wrote is the gzip stream of `data`. That it never
/// reports one is not claimed.
#[verifier::external_body]
pub(crate) fn gzip_compress(data: &[u8]) -> (stream: Result<Vec<u8>, std::io::Error>)
    ensures
        stream is Ok <==> gzip(data@) is Some,
        stream matches Ok(bytes) ==> gzip(data@) == Some(bytes@),
{
    let mut encoder = flate2::write::GzEncoder::new(Vec::new(), flate2::Compression::default());
    encoder.write_all(data)?;
    encoder.finish()
}

/// `flate2::read::GzDecoder` over a byte slice, read to the end as text.
/// Trusted: the decoder succeeds exactly on the streams that unpack to
/// UTF-8 text, and then returns that text.
#[verifier::external_body]
pub(crate) fn gzip_decompress(stream: &[u8]) -> (text: Result<String, std::io::Error>)
    ensures
        text is Ok <==> gunzip_text(stream@) is Some,
        text matches Ok(t) ==> gunzip_text(stream@) == Some(t@),
{
    let mut decoder = flate2::read::GzDecoder::new(stream);
    let mut text = String::new();
    decoder.read_to_string(&mut text)?;
    Ok(text)
}

/// The byte of `id` at position `i`, counted from the most significant.
pub open spec fn byte_at(id: u128, i: int) -> u8 {
    ((id >> (((15 - i) * 8) as u128)) & 0xff) as u8
}

/// The sixteen bytes of `id`, the most significant first.
pub open spec fn be_bytes(id: u128) -> Seq<u8> {
    Seq::new(16, |i: int| byte_at(id, i))
}

/// The canonical text of an identity: its 32 lower-case hexadecimal digits,
/// most significant first, in groups of 8, 4, 4, 4 and 12 joined by hyphens.
pub open spec fn hyphenated(id: u128) -> Seq<char> {
    let digits = hex_lower(be_bytes(id));
    digits.subrange(0, 8) + seq!['-'] + digits.subrange(8, 12) + seq!['-'] + digits.subrange(
        12,
        16,
    ) + seq!['-'] + digits.subrange(16, 20) + seq!['-'] + digits.subrange(20, 32)
}

/// `uuid::Uuid::from_u128` and the `Display` of the value it gives.
/// Trusted: the text is the hyphenated lower-case form of `id`.
#[verifier::external_body]
pub(crate) fn id_text(id: u128) -> (text: String)
    ensures
        text@ == hyphenated(id),
{
    uuid::Uuid::from_u128(id).to_string()
}

/// The position in the hyphenated text of the digit at position `k`.
pub open spec fn place_of_digit(k: int) -> int {
    if k < 8 {
        k
    } else if k < 12 {
        k + 1
    } else if k < 16 {
        k + 2
    } else if k < 20 {
        k + 3
    } else {
        k + 4
    }
}

/// Two numbers with the same sixteen bytes are equal.
proof fn lemma_bytes_determine(a: u128, b: u128)
    requires
        be_bytes(a) == be_bytes(b),
    ensures
        a == b,
{
    assert forall|i: int| 0 <= i < 16 implies byte_at(a, i) == byte_at(b, i) by {
        assert(be_bytes(a)[i] == byte_at(a, i));
        assert(be_bytes(b)[i] == byte_at(b, i));
    }
    assert(forall|x: u128| #![auto] (x & 0xff) < 256) by (bit_vector);
    assert(byte_at(a, 0) == byte_at(b, 0));
    assert(byte_at(a, 1) == byte_at(b, 1));
    assert(byte_at(a, 2) == byte_at(b, 2));
    assert(byte_at(a, 3) == byte_at(b, 3));
    assert(byte_at(a, 4) == byte_at(b, 4));
    assert(byte_at(a, 5) == byte_at(b, 5));
    assert(byte_at(a, 6) == byte_at(b, 6));
    assert(byte_at(a, 7) == byte_at(b, 7));
    assert(byte_at(a, 8) == byte_at(b, 8));
    assert(byte_at(a, 9) == byte_at(b, 9));
    assert(byte_at(a, 10) == byte_at(b, 10));
    assert(byte_at(a, 11) == byte_at(b, 11));
    assert(byte_at(a, 12) == byte_at(b, 12));
    assert(byte_at(a, 13) == byte_at(b, 13));
    assert(byte_at(a, 14) == byte_at(b, 14));
    assert(byte_at(a, 15) == byte_at(b, 15));
    assert(a == b) by (bit_vector)
        requires
            (a >> 120) & 0xff == (b >> 120) & 0xff,
            (a >> 112) & 0xff == (b >> 112) & 0xff,
            (a >> 104) & 0xff == (b >> 104) & 0xff,
            (a >> 96) & 0xff == (b >> 96) & 0xff,
            (a >> 88) & 0xff == (b >> 88) & 0xff,
            (a >> 80) & 0xff == (b >> 80) & 0xff,
            (a >> 72) & 0xff == (b >> 72) & 0xff,
            (a >> 64) & 0xff == (b >> 64) & 0xff,
            (a >> 56) & 0xff == (b >> 56) & 0xff,
            (a >> 48) & 0xff == (b >> 48) & 0xff,
            (a >> 40) & 0xff == (b >> 40) & 0xff,
            (a >> 32) & 0xff == (b >> 32) & 0xff,
            (a >> 24) & 0xff == (b >> 24) & 0xff,
            (a >> 16) & 0xff == (b >> 16) & 0xff,
            (a >> 8) & 0xff == (b >> 8) & 0xff,
            (a >> 0) & 0xff == (b >> 0) & 0xff,
    ;
}

/// Two byte strings of one length with the same hexadecimal text are
/// equal.
proof fn lemma_hex_determines(x: Seq<u8>, y: Seq<u8>)
    requires
        x.len() == y.len(),
        hex_lower(x) == hex_lower(y),
    ensures
        x == y,
{
    let digits = crate::text::hex_digits();
    assert forall|m: int, n: int| 0 <= m < 16 && 0 <= n < 16 && digits[m] == digits[n] implies m
        == n by {}
    assert forall|k: int| 0 <= k < x.len() implies x[k] == y[k] by {
        let (hx, hy) = (x[k] as int / 16, y[k] as int / 16);
        let (lx, ly) = (x[k] as int % 16, y[k] as int % 16);
        assert((2 * k) % 2 == 0 && (2 * k) / 2 == k);
        assert((2 * k + 1) % 2 == 1 && (2 * k + 1) / 2 == k);
        assert(hex_lower(x)[2 * k] == digits[hx]);
        assert(hex_lower(y)[2 * k] == digits[hy]);
        assert(hex_lower(x)[2 * k + 1] == digits[lx]);
        assert(hex_lower(y)[2 * k + 1] == digits[ly]);
        assert(hx == hy && lx == ly);
    }
    assert(x =~= y);
}

/// The canonical text tells identities apart: two identities with the same
/// text are the same.
pub proof fn lemma_hyphenated_determines(a: u128, b: u128)
    requires
        hyphenated(a) == hyphenated(b),
    ensures
        a == b,
{
    let da = hex_lower(be_bytes(a));
    let db = hex_lower(be_bytes(b));
    assert forall|k: int| 0 <= k < 32 implies da[k] == db[k] by {
        assert(hyphenated(a)[place_of_digit(k)] == da[k]);
        assert(hyphenated(b)[place_of_digit(k)] == db[k]);
    }
    assert(da =~= db);
    lemma_hex_determines(be_bytes(a), be_bytes(b));
    lemma_bytes_determine(a, b);
}

/// Texts that frame the canonical text of an identity tell identities
/// apart as well.
pub proof fn lemma_framed_text_determines(
    before: Seq<char>,
    after: Seq<char>,
    a: u128,
    b: u128,
)
    requires
        before + hyphenated(a) + after == before + hyphenated(b) + after,
    ensures
        a == b,
{
    let ta = before + hyphenated(a) + after;
    let tb = before + hyphenated(b) + after;
    assert(hyphenated(a).len() == 36);
    assert(hyphenated(b).len() == 36);
    assert forall|i: int| 0 <= i < 36 implies hyphenated(a)[i] == hyphenated(b)[i] by {
        assert(ta[before.len() + i] == hyphenated(a)[i]);
        assert(tb[before.len() + i] == hyphenated(b)[i]);
    }
    assert(hyphenated(a) =~= hyphenated(b));
    lemma_hyphenated_determines(a, b);
}

} // verus!
