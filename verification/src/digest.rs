//! SHA-256 digests in base64, as carried by the HTTP `Digest` header.
use vstd::prelude::*;

verus! {

/// The character of the standard base64 alphabet for the 6-bit value `v`.
pub open spec fn base64_char(v: nat) -> char {
    if v < 26 {
        ((65 + v) as u32) as char
    } else if v < 52 {
        ((97 + (v - 26)) as u32) as char
    } else if v < 62 {
        ((48 + (v - 52)) as u32) as char
    } else if v == 62 {
        '+'
    } else {
        '/'
    }
}

/// Standard base64 (RFC 4648, section 4) with `=` padding and no line breaks.
pub open spec fn base64_spec(data: Seq<u8>) -> Seq<char>
    decreases data.len(),
{
    if data.len() == 0 {
        Seq::empty()
    } else if data.len() == 1 {
        let b0 = data[0] as nat;
        seq![base64_char(b0 / 4), base64_char((b0 % 4) * 16), '=', '=']
    } else if data.len() == 2 {
        let b0 = data[0] as nat;
        let b1 = data[1] as nat;
        seq![
            base64_char(b0 / 4),
            base64_char((b0 % 4) * 16 + b1 / 16),
            base64_char((b1 % 16) * 4),
            '=',
        ]
    } else {
        let b0 = data[0] as nat;
        let b1 = data[1] as nat;
        let b2 = data[2] as nat;
        seq![
            base64_char(b0 / 4),
            base64_char((b0 % 4) * 16 + b1 / 16),
            base64_char((b1 % 16) * 4 + b2 / 64),
            base64_char(b2 % 64),
        ] + base64_spec(data.skip(3))
    }
}

/// Inputs short enough for `openssl::base64::encode_block`, whose output
/// length plus a terminator must fit a C `int`.
pub open spec fn base64_encodable(len: nat) -> bool {
    len <= 0x7fff_ffff && 4 * ((len + 2) / 3) + 1 <= 0x7fff_ffff
}

/// The SHA-256 digest of `data` (FIPS 180-4).
pub uninterp spec fn sha256_spec(data: Seq<u8>) -> Seq<u8>;

/// `openssl::base64::encode_block`: standard base64 with padding and no line
/// breaks (it calls `EVP_EncodeBlock`). It panics when the encoded length does
/// not fit a C `int`, which `requires` leaves out.
#[verifier::external_body]
pub(crate) fn base64_encode(data: &[u8]) -> (s: String)
    requires
        base64_encodable(data@.len()),
    ensures
        s@ == base64_spec(data@),
{
    openssl::base64::encode_block(data)
}

/// `openssl::sha::sha256`: the 32-byte SHA-256 digest of `data`; the
/// contract names the digest and states its length, the algorithm itself is
/// not restated.
#[verifier::external_body]
pub(crate) fn sha256(data: &[u8]) -> (d: Vec<u8>)
    ensures
        d@ == sha256_spec(data@),
        d@.len() == 32,
{
    openssl::sha::sha256(data).to_vec()
}

/// Base64 encoding produces four characters for every started group of three bytes.
pub proof fn law_base64_length(data: Seq<u8>)
    ensures
        base64_spec(data).len() == 4 * ((data.len() + 2) / 3),
    decreases data.len(),
{
    if data.len() >= 3 {
        law_base64_length(data.skip(3));
    }
}

/// Base64 of a length that leaves two bytes over ends in one `=`.
pub proof fn lemma_base64_padding(data: Seq<u8>)
    requires
        data.len() % 3 == 2,
    ensures
        base64_spec(data).len() > 0,
        base64_spec(data).last() == '=',
    decreases data.len(),
{
    if data.len() > 2 {
        lemma_base64_padding(data.skip(3));
        let rest = base64_spec(data.skip(3));
        let out = base64_spec(data);
        assert(out.len() == 4 + rest.len());
        assert(out.last() == rest.last());
    }
}

/// A character that base64 output never contains: not in the alphabet and not `=`.
pub open spec fn outside_base64(c: char) -> bool {
    c == ',' || c == '"' || c == '['
}

/// Base64 output contains no comma, no double quote and no `[`.
pub proof fn lemma_base64_chars(data: Seq<u8>)
    ensures
        forall|i: int| 0 <= i < base64_spec(data).len() ==> !outside_base64(#[trigger] base64_spec(data)[i]),
    decreases data.len(),
{
    assert forall|v: nat| v < 64 implies !outside_base64(#[trigger] base64_char(v)) by {
        if v < 26 {
            assert(((65 + v) as u32) as char != ',');
        }
    }
    if data.len() > 0 {
        let b0 = data[0] as nat;
        assert(b0 / 4 < 64);
        if data.len() >= 2 {
            let b1 = data[1] as nat;
            assert((b0 % 4) * 16 + b1 / 16 < 64);
            assert((b1 % 16) * 4 < 64);
            if data.len() >= 3 {
                let b2 = data[2] as nat;
                assert((b1 % 16) * 4 + b2 / 64 < 64);
                assert(b2 % 64 < 64);
                lemma_base64_chars(data.skip(3));
                let head = seq![
                    base64_char(b0 / 4),
                    base64_char((b0 % 4) * 16 + b1 / 16),
                    base64_char((b1 % 16) * 4 + b2 / 64),
                    base64_char(b2 % 64),
                ];
                let out = base64_spec(data);
                assert(out == head + base64_spec(data.skip(3)));
                assert forall|i: int| 0 <= i < out.len() implies !outside_base64(#[trigger] out[i]) by {
                    if i < 4 {
                        assert(out[i] == head[i]);
                    } else {
                        assert(out[i] == base64_spec(data.skip(3))[i - 4]);
                    }
                }
            }
        } else {
            assert((b0 % 4) * 16 < 64);
        }
    }
}

/// Generates a SHA-256 digest of the provided buffer, encoded in base64.
pub fn sha256_hash(body: &[u8]) -> (s: String)
    ensures
        sha256_spec(body@).len() == 32,
        s@ == base64_spec(sha256_spec(body@)),
        s@.len() == 44,
        s@[43] == '=',
{
    let digest = sha256(body);
    proof {
        law_base64_length(digest@);
        lemma_base64_padding(digest@);
    }
    base64_encode(digest.as_slice())
}

/// Generates the base64 SHA-256 digest of a request body.
pub fn generate_digest(body: &[u8]) -> (s: String)
    ensures
        sha256_spec(body@).len() == 32,
        s@ == base64_spec(sha256_spec(body@)),
        s@.len() == 44,
        s@[43] == '=',
{
    sha256_hash(body)
}

} // verus!
