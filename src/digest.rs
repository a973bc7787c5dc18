//! Content digests of served files: BLAKE3, SHA-256 and SHA-512, and the
//! header values built from them.

use vstd::prelude::*;
use crate::text::push_char;

verus! {

/// The BLAKE3 hash of a byte sequence.
pub uninterp spec fn blake3_of(data: Seq<u8>) -> Seq<u8>;

/// The SHA-256 digest of a byte sequence.
pub uninterp spec fn sha256_of(data: Seq<u8>) -> Seq<u8>;

/// The SHA-512 digest of a byte sequence.
pub uninterp spec fn sha512_of(data: Seq<u8>) -> Seq<u8>;

/// Relies on `blake3::hash`: the 32-byte BLAKE3 hash of the input.
#[verifier::external_body]
pub(crate) fn blake3_bytes(data: &[u8]) -> (r: Vec<u8>)
    ensures
        r@ == blake3_of(data@),
        r@.len() == 32,
{
    blake3::hash(data).as_bytes().to_vec()
}

/// Relies on `sha2::Sha256::digest`: the 32-byte SHA-256 digest of the input.
#[verifier::external_body]
fn sha256_bytes(data: &[u8]) -> (r: Vec<u8>)
    ensures
        r@ == sha256_of(data@),
        r@.len() == 32,
{
    <sha2::Sha256 as sha2::Digest>::digest(data).to_vec()
}

/// Relies on `sha2::Sha512::digest`: the 64-byte SHA-512 digest of the input.
#[verifier::external_body]
fn sha512_bytes(data: &[u8]) -> (r: Vec<u8>)
    ensures
        r@ == sha512_of(data@),
        r@.len() == 64,
{
    <sha2::Sha512 as sha2::Digest>::digest(data).to_vec()
}

/// The lowercase hexadecimal digit for a value below 16.
pub open spec fn hex_digit(v: int) -> char {
    if v < 10 {
        ((v + 48) as u8) as char
    } else {
        ((v + 87) as u8) as char
    }
}

/// Lowercase hexadecimal text of a byte sequence, two digits per byte.
pub open spec fn hex_lower(data: Seq<u8>) -> Seq<char>
    decreases data.len(),
{
    if data.len() == 0 {
        Seq::empty()
    } else {
        let b = data.last();
        hex_lower(data.drop_last()).push(hex_digit(b as int / 16)).push(
            hex_digit(b as int % 16),
        )
    }
}

/// Hexadecimal text has two digits per byte.
pub proof fn lemma_hex_len(data: Seq<u8>)
    ensures
        hex_lower(data).len() == 2 * data.len(),
    decreases data.len(),
{
    if data.len() > 0 {
        lemma_hex_len(data.drop_last());
    }
}

fn hex_digit_char(v: u8) -> (c: char)
    requires
        v < 16,
    ensures
        c == hex_digit(v as int),
{
    if v < 10 {
        (v + 48) as char
    } else {
        (v + 87) as char
    }
}

/// Renders bytes as lowercase hexadecimal text.
pub fn to_hex(data: &[u8]) -> (r: String)
    ensures
        r@ == hex_lower(data@),
{
    let mut out = String::new();
    let mut i: usize = 0;
    while i < data.len()
        invariant
            i <= data@.len(),
            out@ == hex_lower(data@.subrange(0, i as int)),
        decreases data@.len() - i,
    {
        let b = data[i];
        push_char(&mut out, hex_digit_char(b / 16));
        push_char(&mut out, hex_digit_char(b % 16));
        assert(data@.subrange(0, i + 1).drop_last() =~= data@.subrange(0, i as int));
        i = i + 1;
    }
    assert(data@.subrange(0, data@.len() as int) =~= data@);
    out
}

/// The character of the standard base64 alphabet for a value below 64.
pub open spec fn base64_char(v: int) -> char {
    if v < 26 {
        ((v + 65) as u8) as char
    } else if v < 52 {
        ((v + 71) as u8) as char
    } else if v < 62 {
        ((v - 4) as u8) as char
    } else if v == 62 {
        '+'
    } else {
        '/'
    }
}

/// Standard base64 text of a byte sequence, padded with `=`: every group of
/// three bytes gives four characters, and a final short group is padded.
pub open spec fn base64_std(d: Seq<u8>) -> Seq<char>
    decreases d.len(),
{
    if d.len() == 0 {
        Seq::empty()
    } else if d.len() == 1 {
        seq![base64_char((d[0] as int) / 4), base64_char(((d[0] as int) % 4) * 16), '=', '=']
    } else if d.len() == 2 {
        seq![
            base64_char((d[0] as int) / 4),
            base64_char(((d[0] as int) % 4) * 16 + (d[1] as int) / 16),
            base64_char(((d[1] as int) % 16) * 4),
            '=',
        ]
    } else {
        seq![
            base64_char((d[0] as int) / 4),
            base64_char(((d[0] as int) % 4) * 16 + (d[1] as int) / 16),
            base64_char(((d[1] as int) % 16) * 4 + (d[2] as int) / 64),
            base64_char((d[2] as int) % 64),
        ] + base64_std(d.skip(3))
    }
}

/// Padded base64 text has four characters for every started group of three
/// bytes.
pub proof fn lemma_base64_len(d: Seq<u8>)
    ensures
        base64_std(d).len() == 4 * ((d.len() + 2) / 3),
    decreases d.len(),
{
    if d.len() >= 3 {
        lemma_base64_len(d.skip(3));
    }
}

/// Relies on `base64::Engine::encode` with the standard padded alphabet.
#[verifier::external_body]
fn base64_encode(data: &[u8]) -> (r: String)
    ensures
        r@ == base64_std(data@),
{
    base64::Engine::encode(&base64::engine::general_purpose::STANDARD, data)
}

/// The three digests of one file's content.
pub struct Digests {
    /// The raw 32-byte BLAKE3 hash.
    pub blake3: Vec<u8>,
    /// The SHA-256 digest in base64.
    pub sha256: String,
    /// The SHA-512 digest in base64.
    pub sha512: String,
}

impl Digests {
    /// The model of a digest triple: BLAKE3 bytes, SHA-256 text, SHA-512 text.
    pub open spec fn view(&self) -> (Seq<u8>, Seq<char>, Seq<char>) {
        (self.blake3@, self.sha256@, self.sha512@)
    }
}

/// The digest triple that the content `data` must have.
pub open spec fn digests_of(data: Seq<u8>) -> (Seq<u8>, Seq<char>, Seq<char>) {
    (blake3_of(data), base64_std(sha256_of(data)), base64_std(sha512_of(data)))
}

/// Computes the BLAKE3 hash, and the SHA-256 and SHA-512 digests in base64.
pub fn hashgen(data: &[u8]) -> (r: Digests)
    ensures
        r.view() == digests_of(data@),
        r.blake3@.len() == 32,
        r.sha256@.len() == 44,
        r.sha512@.len() == 88,
{
    let b3 = blake3_bytes(data);
    let s256 = sha256_bytes(data);
    let s512 = sha512_bytes(data);
    proof {
        lemma_base64_len(s256@);
        lemma_base64_len(s512@);
    }
    Digests { blake3: b3, sha256: base64_encode(s256.as_slice()), sha512: base64_encode(s512.as_slice()) }
}

/// Digesting is a function of the bytes alone: equal content always gives
/// equal BLAKE3, SHA-256 and SHA-512 values.
pub proof fn lemma_digests_deterministic(a: Seq<u8>, b: Seq<u8>)
    requires
        a == b,
    ensures
        digests_of(a) == digests_of(b),
        hex_lower(digests_of(a).0) == hex_lower(digests_of(b).0),
{
}

/// The quoted ETag value of a digest triple.
pub open spec fn etag_of(blake3: Seq<u8>) -> Seq<char> {
    seq!['"'] + hex_lower(blake3) + seq!['"']
}

/// The combined `Digest` header value of a digest triple.
pub open spec fn digest_header_of(d: (Seq<u8>, Seq<char>, Seq<char>)) -> Seq<char> {
    "sha-256="@ + d.1 + ",sha-512="@ + d.2 + ",blake3="@ + hex_lower(d.0)
}

/// The ETag: the BLAKE3 hash in lowercase hexadecimal, in double quotes.
pub fn etag(d: &Digests) -> (r: String)
    ensures
        r@ == etag_of(d.blake3@),
{
    let mut out = String::new();
    push_char(&mut out, '"');
    let hex = to_hex(d.blake3.as_slice());
    out.append(hex.as_str());
    push_char(&mut out, '"');
    assert(out@ =~= etag_of(d.blake3@));
    out
}

/// The `Digest` header: `sha-256=<b64>,sha-512=<b64>,blake3=<hex>`.
pub fn digest_header(d: &Digests) -> (r: String)
    ensures
        r@ == digest_header_of(d.view()),
{
    let mut out = String::new();
    out.append("sha-256=");
    out.append(d.sha256.as_str());
    out.append(",sha-512=");
    out.append(d.sha512.as_str());
    out.append(",blake3=");
    let hex = to_hex(d.blake3.as_slice());
    out.append(hex.as_str());
    assert(out@ =~= digest_header_of(d.view()));
    out
}

} // verus!
