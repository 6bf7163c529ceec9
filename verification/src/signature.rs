//! HTTP Signatures (draft-cavage) as ActivityPub servers use them: checking the
//! `Digest` and `Signature` headers of an incoming request.
use vstd::prelude::*;

use crate::digest;
use crate::digest::generate_digest;
use crate::text;
use crate::text::{eq_ignore_ascii_case, join, remove_char, remove_pattern, split_on_char, split_once_char};
use crate::webfinger::eq_str;

verus! {

/// Why an incoming request is refused.
pub enum RequestVerificationError {
    NoMessageDigest,
    BadMessageDigest,
    BadMessageBody,
    DigestDoesNotMatch,
    NoMessageSignature,
    BadMessageSignature,
    NoSignatureKey,
    NoSignature,
    SignatureIncorrectBase64,
    ActorFetchFailed,
    ActorFetchBodyFailed,
    ActorDeserializeFailed,
    NoSignatureHeaders,
    SignatureVerifyFailed,
    NoDate,
    MissingSignedHeaderField(String),
    BodyDeserializeErr,
    ForgedAttribution,
    KeyOwnerDoesNotMatch,
}

/// An incoming request as plain values: its headers in order, with raw
/// values, and its body.
pub struct IncomingRequest {
    pub headers: Vec<(String, Vec<u8>)>,
    pub body: Vec<u8>,
}

/// The text of the `Digest` header and of the body, both valid UTF-8.
pub struct RequestText {
    pub digest: String,
    pub body: String,
}

/// What the `Signature` header names: the key, the signature (quotes
/// removed) and the list of signed headers, if given.
pub struct SignatureParams {
    pub key_id: String,
    pub signature: String,
    pub headers: Option<String>,
}

/// The headers of a request as plain values.
pub open spec fn headers_view(r: &IncomingRequest) -> Seq<(Seq<char>, Seq<u8>)> {
    r.headers.deep_view()
}

/// The value of the first header whose name matches `name` without regard
/// to ASCII case (header names are case-insensitive).
pub open spec fn header_lookup(h: Seq<(Seq<char>, Seq<u8>)>, name: Seq<char>) -> Option<Seq<u8>>
    decreases h.len(),
{
    if h.len() == 0 {
        None
    } else if text::eq_ignore_ascii_case_spec(h[0].0, name) {
        Some(h[0].1)
    } else {
        header_lookup(h.drop_first(), name)
    }
}

/// The text that `str::replace` was given to strip from signature parameters.
pub open spec fn stripped_pattern() -> Seq<char> {
    "/[^A-Za-z]/"@
}

/// A `key=value` piece of the `Signature` header, split at its first `=`,
/// with the stripped pattern removed from both sides.
pub open spec fn param_of(piece: Seq<char>) -> Option<(Seq<char>, Seq<char>)> {
    let i = text::first_pos(piece, '=');
    if i >= 0 {
        Some(
            (
                text::without_pattern(piece.take(i), stripped_pattern()),
                text::without_pattern(piece.skip(i + 1), stripped_pattern()),
            ),
        )
    } else {
        None
    }
}

/// The parameters of the pieces that contain an `=`, in order.
pub open spec fn params_of(pieces: Seq<Seq<char>>) -> Seq<(Seq<char>, Seq<char>)>
    decreases pieces.len(),
{
    if pieces.len() == 0 {
        Seq::empty()
    } else {
        match param_of(pieces.last()) {
            Some(p) => params_of(pieces.drop_last()).push(p),
            None => params_of(pieces.drop_last()),
        }
    }
}

/// The parameters of a `Signature` header: its comma-separated pieces.
pub open spec fn signature_params_spec(header: Seq<char>) -> Seq<(Seq<char>, Seq<char>)> {
    params_of(text::split_on(header, ','))
}

/// The value of the last parameter called `key` (a later one replaces an earlier one).
pub open spec fn param_lookup(params: Seq<(Seq<char>, Seq<char>)>, key: Seq<char>) -> Option<
    Seq<char>,
>
    decreases params.len(),
{
    if params.len() == 0 {
        None
    } else if params.last().0 == key {
        Some(params.last().1)
    } else {
        param_lookup(params.drop_last(), key)
    }
}

/// The digest header value that the body calls for.
pub open spec fn expected_digest(body: Seq<char>) -> Seq<char> {
    "SHA-256="@ + digest::base64_spec(digest::sha256_spec(vstd::utf8::encode_utf8(body)))
}

/// The names listed in the `headers` parameter (quotes removed, split at spaces).
pub open spec fn signed_names(headers_param: Seq<char>) -> Seq<Seq<char>> {
    text::split_on(text::without_char(headers_param, '"'), ' ')
}

/// The line a signed header name contributes to the signed text, if any:
/// the request target and host are rebuilt from the request's path and the
/// instance's domain, other names are looked up in the request.
pub open spec fn signed_line(
    h: Seq<(Seq<char>, Seq<u8>)>,
    name: Seq<char>,
    path: Seq<char>,
    domain: Seq<char>,
) -> Option<Seq<char>> {
    if name == "(request-target)"@ {
        Some("(request-target): post "@ + path)
    } else if name == "host"@ {
        Some("host: "@ + domain)
    } else {
        match header_lookup(h, name) {
            Some(v) => Some(name + ": "@ + vstd::utf8::decode_utf8(v)),
            None => None,
        }
    }
}

/// The lines of the signed text, one for each name that has one.
pub open spec fn signed_lines(
    h: Seq<(Seq<char>, Seq<u8>)>,
    names: Seq<Seq<char>>,
    path: Seq<char>,
    domain: Seq<char>,
) -> Seq<Seq<char>>
    decreases names.len(),
{
    if names.len() == 0 {
        Seq::empty()
    } else {
        let prev = signed_lines(h, names.drop_last(), path, domain);
        match signed_line(h, names.last(), path, domain) {
            Some(l) => prev.push(l),
            None => prev,
        }
    }
}

/// Every header that a signed name looks up has a UTF-8 value.
pub open spec fn signed_values_readable(
    h: Seq<(Seq<char>, Seq<u8>)>,
    names: Seq<Seq<char>>,
) -> bool {
    forall|i: int|
        0 <= i < names.len() && names[i] != "(request-target)"@ && names[i] != "host"@ ==> match
            #[trigger] header_lookup(h, names[i]) {
            Some(v) => vstd::utf8::valid_utf8(v),
            None => true,
        }
}

/// The text whose signature the request carries, rebuilt from the request.
pub open spec fn comparison_text(
    h: Seq<(Seq<char>, Seq<u8>)>,
    headers_param: Seq<char>,
    path: Seq<char>,
    domain: Seq<char>,
) -> Seq<char> {
    text::join_with(signed_lines(h, signed_names(headers_param), path, domain), "\n"@)
}

// ------------------------------------------------------------------
// trusted operations
// ------------------------------------------------------------------

/// Whether openssl reads the bytes as a PEM SubjectPublicKeyInfo holding an
/// RSA key (`PKey::public_key_from_pem_passphrase` with an empty passphrase,
/// then `PKey::rsa`).
pub uninterp spec fn rsa_public_pem_ok(pem: Seq<u8>) -> bool;

/// What an RSA PKCS#1 v1.5 SHA-256 check of `signature` over `message` with the
/// PEM public key gives: `None` when openssl reports an error.
pub uninterp spec fn rsa_sha256_verify_spec(pem: Seq<u8>, message: Seq<u8>, signature: Seq<u8>) -> Option<bool>;

/// What `openssl::base64::decode_block` gives for a text: `None` when openssl
/// refuses it.
pub uninterp spec fn base64_decode_spec(text: Seq<char>) -> Option<Seq<u8>>;

/// `String::from_utf8`: the text that the bytes encode, when they are UTF-8.
#[verifier::external_body]
pub(crate) fn utf8_text(bytes: &[u8]) -> (r: Option<String>)
    ensures
        r is Some <==> vstd::utf8::valid_utf8(bytes@),
        r matches Some(s) ==> s@ == vstd::utf8::decode_utf8(bytes@),
{
    String::from_utf8(bytes.to_vec()).ok()
}

/// `openssl::pkey::PKey::public_key_from_pem_passphrase` with an empty
/// passphrase, then `PKey::rsa`, asked only whether both succeed; named by
/// `rsa_public_pem_ok`. The passphrase is given so that openssl never asks the
/// terminal for one. Reading the PEM panics when it is longer than a C `int`
/// allows, which `requires` leaves out.
#[verifier::external_body]
pub(crate) fn rsa_public_pem_check(pem: &[u8]) -> (r: bool)
    requires
        pem@.len() <= 0x7fff_ffff,
    ensures
        r == rsa_public_pem_ok(pem@),
{
    match openssl::pkey::PKey::public_key_from_pem_passphrase(pem, b"") {
        Ok(key) => key.rsa().is_ok(),
        Err(_) => false,
    }
}

/// `openssl::sign::Verifier` with SHA-256 over an RSA public key read from
/// PEM (`PKey::public_key_from_pem_passphrase` with an empty passphrase, so
/// that openssl never asks the terminal for one, `PKey::rsa`, `Verifier::new`,
/// `update`, `verify`); `None` when one of these reports an error. The result
/// is named by `rsa_sha256_verify_spec`; RSA itself is not restated. Reading
/// the PEM panics when it is longer than a C `int` allows, which `requires`
/// leaves out.
#[verifier::external_body]
pub(crate) fn rsa_sha256_verify(pem: &[u8], message: &[u8], signature: &[u8]) -> (r: Option<bool>)
    requires
        pem@.len() <= 0x7fff_ffff,
    ensures
        r == rsa_sha256_verify_spec(pem@, message@, signature@),
{
    let key = openssl::pkey::PKey::public_key_from_pem_passphrase(pem, b"").ok()?;
    key.rsa().ok()?;
    let mut verifier = openssl::sign::Verifier::new(openssl::hash::MessageDigest::sha256(), &key).ok()?;
    verifier.update(message).ok()?;
    verifier.verify(signature).ok()
}

/// `openssl::base64::decode_block`; named by `base64_decode_spec`. It panics
/// when the text is longer than a C `int` allows, which `requires` leaves out.
#[verifier::external_body]
pub(crate) fn base64_decode(text: &str) -> (r: Option<Vec<u8>>)
    requires
        vstd::utf8::encode_utf8(text@).len() <= 0x7fff_ffff,
    ensures
        match r {
            Some(v) => base64_decode_spec(text@) == Some(v@),
            None => base64_decode_spec(text@) is None,
        },
{
    openssl::base64::decode_block(text).ok()
}

// ------------------------------------------------------------------
// verified operations
// ------------------------------------------------------------------

/// The value of the first header named `name` (ASCII case ignored).
pub fn find_header<'a>(headers: &'a Vec<(String, Vec<u8>)>, name: &str) -> (r: Option<&'a Vec<u8>>)
    ensures
        match r {
            Some(v) => header_lookup(headers.deep_view(), name@) == Some(v@),
            None => header_lookup(headers.deep_view(), name@) is None,
        },
{
    let ghost h = headers.deep_view();
    let n = headers.len();
    let mut i: usize = 0;
    assert(h.skip(0) =~= h);
    while i < n
        invariant
            i <= n,
            n == headers@.len(),
            h == headers.deep_view(),
            header_lookup(h, name@) == header_lookup(h.skip(i as int), name@),
        decreases n - i,
    {
        let ghost rest = h.skip(i as int);
        assert(rest[0] == h[i as int]);
        assert(rest.drop_first() =~= h.skip(i + 1));
        if eq_ignore_ascii_case(headers[i].0.as_str(), name) {
            return Some(&headers[i].1);
        }
        i = i + 1;
    }
    None
}

/// Reads the `Digest` header and the body as text.
pub fn read_request_text(request: &IncomingRequest) -> (r: Result<RequestText, RequestVerificationError>)
    ensures
        match header_lookup(headers_view(request), "Digest"@) {
            None => r matches Err(RequestVerificationError::NoMessageDigest),
            Some(d) => if !vstd::utf8::valid_utf8(d) {
                r matches Err(RequestVerificationError::BadMessageDigest)
            } else if !vstd::utf8::valid_utf8(request.body@) {
                r matches Err(RequestVerificationError::BadMessageBody)
            } else {
                r matches Ok(t) && t.digest@ == vstd::utf8::decode_utf8(d) && t.body@ == vstd::utf8::decode_utf8(
                    request.body@,
                )
            },
        },
{
    let digest = match find_header(&request.headers, "Digest") {
        Some(d) => d,
        None => return Err(RequestVerificationError::NoMessageDigest),
    };
    let digest = match utf8_text(digest.as_slice()) {
        Some(d) => d,
        None => return Err(RequestVerificationError::BadMessageDigest),
    };
    let body = match utf8_text(request.body.as_slice()) {
        Some(b) => b,
        None => return Err(RequestVerificationError::BadMessageBody),
    };
    Ok(RequestText { digest, body })
}

/// The parameters of a `Signature` header: its comma-separated `key=value`
/// pieces (pieces without `=` are skipped).
pub fn parse_signature_header(header: &str) -> (r: Vec<(String, String)>)
    ensures
        r.deep_view() == signature_params_spec(header@),
{
    proof {
        reveal_strlit("/[^A-Za-z]/");
    }
    let pieces = split_on_char(header, ',');
    let ghost pv = pieces.deep_view();
    let mut out: Vec<(String, String)> = Vec::new();
    let n = pieces.len();
    for i in 0..n
        invariant
            n == pieces@.len(),
            pv == pieces.deep_view(),
            pv == text::split_on(header@, ','),
            stripped_pattern().len() > 0,
            out.deep_view() == params_of(pv.take(i as int)),
    {
        assert(pv.take(i + 1).drop_last() =~= pv.take(i as int));
        assert(pv.take(i + 1).last() == pieces@[i as int]@);
        match split_once_char(pieces[i].as_str(), '=') {
            Some((k, v)) => {
                let k2 = remove_pattern(k.as_str(), "/[^A-Za-z]/");
                let v2 = remove_pattern(v.as_str(), "/[^A-Za-z]/");
                out.push((k2, v2));
                assert(out.deep_view() =~= params_of(pv.take(i as int)).push(
                    param_of(pv[i as int]).unwrap(),
                ));
            },
            None => {},
        }
    }
    assert(pv.take(n as int) =~= pv);
    out
}

/// The value of the last parameter called `key`.
pub fn find_param(params: &Vec<(String, String)>, key: &str) -> (r: Option<String>)
    ensures
        r.deep_view() == param_lookup(params.deep_view(), key@),
{
    let ghost pv = params.deep_view();
    let mut i = params.len();
    assert(pv.take(i as int) =~= pv);
    while i > 0
        invariant
            i <= params@.len(),
            pv == params.deep_view(),
            param_lookup(pv, key@) == param_lookup(pv.take(i as int), key@),
        decreases i,
    {
        let ghost pre = pv.take(i as int);
        assert(pre.last() == pv[i - 1]);
        assert(pre.drop_last() =~= pv.take(i - 1));
        if eq_str(params[i - 1].0.as_str(), key) {
            return Some(params[i - 1].1.clone());
        }
        i = i - 1;
    }
    None
}

/// Refuses a document whose attribution was found forged (the outcome of
/// checking who an activity claims to come from, which the caller makes),
/// then checks the body against the `Digest` header, then reads the key id,
/// the signature and the signed-header list from the `Signature` header.
pub fn check_digest_and_signature_header(
    request: &IncomingRequest,
    text: &RequestText,
    attribution_forged: bool,
) -> (r: Result<SignatureParams, RequestVerificationError>)
    ensures
        if attribution_forged {
            r matches Err(RequestVerificationError::ForgedAttribution)
        } else if text.digest@ != expected_digest(text.body@) {
            r matches Err(RequestVerificationError::DigestDoesNotMatch)
        } else {
            match header_lookup(headers_view(request), "Signature"@) {
                None => r matches Err(RequestVerificationError::NoMessageSignature),
                Some(s) => if !vstd::utf8::valid_utf8(s) {
                    r matches Err(RequestVerificationError::BadMessageSignature)
                } else {
                    let params = signature_params_spec(vstd::utf8::decode_utf8(s));
                    match param_lookup(params, "keyId"@) {
                        None => r matches Err(RequestVerificationError::NoSignatureKey),
                        Some(k) => match param_lookup(params, "signature"@) {
                            None => r matches Err(RequestVerificationError::NoSignature),
                            Some(sig) => r matches Ok(p) && p.key_id@ == text::without_char(k, '"')
                                && p.signature@ == text::without_char(sig, '"')
                                && p.headers.deep_view() == param_lookup(params, "headers"@),
                        },
                    }
                },
            }
        },
{
    if attribution_forged {
        return Err(RequestVerificationError::ForgedAttribution);
    }
    let generated = generate_digest(text.body.as_str().as_bytes());
    let mut expected = String::from_str("SHA-256=");
    expected.append(generated.as_str());
    if !eq_str(text.digest.as_str(), expected.as_str()) {
        return Err(RequestVerificationError::DigestDoesNotMatch);
    }
    let header = match find_header(&request.headers, "Signature") {
        Some(h) => h,
        None => return Err(RequestVerificationError::NoMessageSignature),
    };
    let header = match utf8_text(header.as_slice()) {
        Some(h) => h,
        None => return Err(RequestVerificationError::BadMessageSignature),
    };
    let params = parse_signature_header(header.as_str());
    let key_id = match find_param(&params, "keyId") {
        Some(k) => k,
        None => return Err(RequestVerificationError::NoSignatureKey),
    };
    let signature = match find_param(&params, "signature") {
        Some(s) => s,
        None => return Err(RequestVerificationError::NoSignature),
    };
    let headers = find_param(&params, "headers");
    Ok(
        SignatureParams {
            key_id: remove_char(key_id.as_str(), '"'),
            signature: remove_char(signature.as_str(), '"'),
            headers,
        },
    )
}

/// Rebuilds the signed text from the request: one line for each name in the
/// signed-header list that has one, joined with newlines. `None` when a signed
/// header's value is not UTF-8.
pub fn build_comparison_string(
    request: &IncomingRequest,
    headers_param: &str,
    path: &str,
    instance_domain: &str,
) -> (r: Option<String>)
    ensures
        match r {
            Some(s) => signed_values_readable(headers_view(request), signed_names(headers_param@))
                && s@ == comparison_text(headers_view(request), headers_param@, path@, instance_domain@),
            None => !signed_values_readable(headers_view(request), signed_names(headers_param@)),
        },
{
    let ghost h = headers_view(request);
    let unquoted = remove_char(headers_param, '"');
    let names = split_on_char(unquoted.as_str(), ' ');
    let ghost nv = names.deep_view();
    assert(nv == signed_names(headers_param@));
    let mut lines: Vec<String> = Vec::new();
    let n = names.len();
    for i in 0..n
        invariant
            n == names@.len(),
            nv == names.deep_view(),
            nv == signed_names(headers_param@),
            h == headers_view(request),
            lines.deep_view() == signed_lines(h, nv.take(i as int), path@, instance_domain@),
            signed_values_readable(h, nv.take(i as int)),
    {
        let ghost pre = nv.take(i + 1);
        assert(pre.drop_last() =~= nv.take(i as int));
        assert(pre.last() == names@[i as int]@);
        let name = names[i].as_str();
        if eq_str(name, "(request-target)") {
            let mut line = String::from_str("(request-target): post ");
            line.append(path);
            lines.push(line);
        } else if eq_str(name, "host") {
            let mut line = String::from_str("host: ");
            line.append(instance_domain);
            lines.push(line);
        } else {
            match find_header(&request.headers, name) {
                Some(v) => {
                    match utf8_text(v.as_slice()) {
                        Some(value) => {
                            let mut line = String::from_str(name);
                            line.append(": ");
                            line.append(value.as_str());
                            lines.push(line);
                        },
                        None => {
                            assert(nv[i as int] == name@);
                            assert(name@ != "(request-target)"@);
                            assert(name@ != "host"@);
                            assert(header_lookup(h, nv[i as int]) == Some(v@));
                            assert(!vstd::utf8::valid_utf8(v@));
                            assert(!signed_values_readable(h, nv));
                            return None;
                        },
                    }
                },
                None => {},
            }
        }
        assert(lines.deep_view() =~= signed_lines(h, pre, path@, instance_domain@));
        assert(signed_values_readable(h, pre)) by {
            assert forall|j: int|
                0 <= j < pre.len() && pre[j] != "(request-target)"@ && pre[j] != "host"@ implies match
                #[trigger] header_lookup(h, pre[j]) {
                Some(v) => vstd::utf8::valid_utf8(v),
                None => true,
            } by {
                if j < i {
                    assert(pre[j] == nv.take(i as int)[j]);
                }
            }
        }
    }
    assert(nv.take(n as int) =~= nv);
    Some(join(&lines, "\n"))
}

/// Checks the signature of a request against the public key of the actor
/// that the key id named: the actor must own the attributed object, the
/// key must be readable, the signed-header list and a `date` header must be
/// present, and the signature must verify over the rebuilt signed text.
/// `None` where handling the request aborts: the PEM key is too long for
/// openssl or unreadable, a signed header is not UTF-8, the signature is not
/// base64, or openssl reports an error while checking.
pub fn check_request_signature(
    request: &IncomingRequest,
    params: &SignatureParams,
    path: &str,
    instance_domain: &str,
    actor_id: &str,
    public_key_pem: &str,
    object_owner: Option<&str>,
) -> (r: Option<Result<(), RequestVerificationError>>)
    ensures
        ({
            let h = headers_view(request);
            let pem = vstd::utf8::encode_utf8(public_key_pem@);
            if object_owner is Some && object_owner->0@ != actor_id@ {
                r matches Some(Err(RequestVerificationError::KeyOwnerDoesNotMatch))
            } else if pem.len() > 0x7fff_ffff {
                r is None
            } else if !rsa_public_pem_ok(pem) {
                r is None
            } else if params.headers is None {
                r matches Some(Err(RequestVerificationError::NoSignatureHeaders))
            } else if header_lookup(h, "date"@) is None {
                r matches Some(Err(RequestVerificationError::NoDate))
            } else {
                let names = signed_names(params.headers->0@);
                if !signed_values_readable(h, names) {
                    r is None
                } else if vstd::utf8::encode_utf8(params.signature@).len() > 0x7fff_ffff {
                    r is None
                } else {
                    match base64_decode_spec(params.signature@) {
                        None => r is None,
                        Some(sig) => {
                            let message = vstd::utf8::encode_utf8(
                                comparison_text(h, params.headers->0@, path@, instance_domain@),
                            );
                            match rsa_sha256_verify_spec(pem, message, sig) {
                                None => r is None,
                                Some(false) => r matches Some(
                                    Err(RequestVerificationError::SignatureVerifyFailed),
                                ),
                                Some(true) => r matches Some(Ok(())),
                            }
                        },
                    }
                }
            }
        }),
{
    if let Some(owner) = object_owner {
        if !eq_str(owner, actor_id) {
            return Some(Err(RequestVerificationError::KeyOwnerDoesNotMatch));
        }
    }
    let pem = public_key_pem.as_bytes();
    if pem.len() > 0x7fff_ffff {
        return None;
    }
    if !rsa_public_pem_check(pem) {
        return None;
    }
    let headers_param = match &params.headers {
        Some(h) => h,
        None => return Some(Err(RequestVerificationError::NoSignatureHeaders)),
    };
    if find_header(&request.headers, "date").is_none() {
        return Some(Err(RequestVerificationError::NoDate));
    }
    let comparison = match build_comparison_string(request, headers_param.as_str(), path, instance_domain) {
        Some(c) => c,
        None => return None,
    };
    if params.signature.as_str().as_bytes().len() > 0x7fff_ffff {
        return None;
    }
    let signature = match base64_decode(params.signature.as_str()) {
        Some(s) => s,
        None => return None,
    };
    match rsa_sha256_verify(pem, comparison.as_str().as_bytes(), signature.as_slice()) {
        None => None,
        Some(false) => Some(Err(RequestVerificationError::SignatureVerifyFailed)),
        Some(true) => Some(Ok(())),
    }
}

/// `c` does not occur in `s`.
pub open spec fn lacks(s: Seq<char>, c: char) -> bool {
    forall|i: int| 0 <= i < s.len() ==> s[i] != c
}

proof fn lemma_lacks_concat(a: Seq<char>, b: Seq<char>, c: char)
    requires
        lacks(a, c),
        lacks(b, c),
    ensures
        lacks(a + b, c),
{
    assert forall|i: int| 0 <= i < (a + b).len() implies (a + b)[i] != c by {
        if i < a.len() {
            assert((a + b)[i] == a[i]);
        } else {
            assert((a + b)[i] == b[i - a.len()]);
        }
    }
}

/// The parameter read from `name=value` when `name` has no `=` and neither
/// part holds the stripped pattern's `[`.
proof fn lemma_param_of_piece(name: Seq<char>, value: Seq<char>)
    requires
        lacks(name, '='),
        lacks(name, '['),
        lacks(value, '['),
    ensures
        param_of(name.push('=') + value) == Some((name, value)),
{
    reveal_strlit("/[^A-Za-z]/");
    let piece = name.push('=') + value;
    assert(piece[name.len() as int] == '=');
    assert forall|j: int| 0 <= j < name.len() implies piece[j] != '=' by {
        assert(piece[j] == name[j]);
    }
    text::lemma_first_pos(piece, '=', name.len() as int);
    assert(piece.take(name.len() as int) =~= name);
    assert(piece.skip(name.len() as int + 1) =~= value);
    assert(stripped_pattern()[1] == '[');
    text::lemma_without_pattern_absent(name, stripped_pattern());
    text::lemma_without_pattern_absent(value, stripped_pattern());
}


/// Splitting three comma-free pieces joined with commas gives them back.
proof fn lemma_split_three(p1: Seq<char>, p2: Seq<char>, p3: Seq<char>)
    requires
        lacks(p1, ','),
        lacks(p2, ','),
        lacks(p3, ','),
    ensures
        text::split_on(p1.push(',') + p2.push(',') + p3, ',') == seq![p1, p2, p3],
{
    let e = Seq::<char>::empty();
    text::lemma_split_state_plain_suffix(e, p1, ',');
    assert(e + p1 =~= p1);
    text::lemma_split_state_separator(p1, ',');
    text::lemma_split_state_plain_suffix(p1.push(','), p2, ',');
    text::lemma_split_state_separator(p1.push(',') + p2, ',');
    assert((p1.push(',') + p2).push(',') =~= p1.push(',') + p2.push(','));
    text::lemma_split_state_plain_suffix(p1.push(',') + p2.push(','), p3, ',');
    assert(text::split_on(p1.push(',') + p2.push(',') + p3, ',') =~= seq![p1, p2, p3]);
}

/// The parameters of three pieces that are all parameters.
proof fn lemma_params_three(
    p1: Seq<char>,
    p2: Seq<char>,
    p3: Seq<char>,
    a: (Seq<char>, Seq<char>),
    b: (Seq<char>, Seq<char>),
    c: (Seq<char>, Seq<char>),
)
    requires
        param_of(p1) == Some(a),
        param_of(p2) == Some(b),
        param_of(p3) == Some(c),
    ensures
        params_of(seq![p1, p2, p3]) == seq![a, b, c],
{
    let e = Seq::<Seq<char>>::empty();
    assert(params_of(e) == Seq::<(Seq<char>, Seq<char>)>::empty());
    assert(seq![p1].drop_last() =~= e);
    assert(seq![p1].last() == p1);
    assert(params_of(seq![p1]) == params_of(e).push(a));
    assert(params_of(seq![p1]) =~= seq![a]);
    assert(seq![p1, p2].drop_last() =~= seq![p1]);
    assert(params_of(seq![p1, p2]) =~= seq![a, b]);
    assert(seq![p1, p2, p3].drop_last() =~= seq![p1, p2]);
    assert(params_of(seq![p1, p2, p3]) =~= seq![a, b, c]);
}

/// Looking up each of three distinct names finds its own value.
proof fn lemma_lookup_three(
    k1: Seq<char>,
    v1: Seq<char>,
    k2: Seq<char>,
    v2: Seq<char>,
    k3: Seq<char>,
    v3: Seq<char>,
)
    requires
        k1 != k2,
        k1 != k3,
        k2 != k3,
    ensures
        param_lookup(seq![(k1, v1), (k2, v2), (k3, v3)], k1) == Some(v1),
        param_lookup(seq![(k1, v1), (k2, v2), (k3, v3)], k2) == Some(v2),
        param_lookup(seq![(k1, v1), (k2, v2), (k3, v3)], k3) == Some(v3),
{
    let all = seq![(k1, v1), (k2, v2), (k3, v3)];
    let two = seq![(k1, v1), (k2, v2)];
    let one = seq![(k1, v1)];
    assert(all.drop_last() =~= two);
    assert(two.drop_last() =~= one);
    assert(all.last() == (k3, v3));
    assert(two.last() == (k2, v2));
    assert(one.last() == (k1, v1));
    assert(param_lookup(one, k1) == Some(v1));
    assert(param_lookup(two, k1) == param_lookup(one, k1));
    assert(param_lookup(two, k2) == Some(v2));
    assert(param_lookup(all, k1) == param_lookup(two, k1));
    assert(param_lookup(all, k2) == param_lookup(two, k2));
}

/// A quoted text without quotes inside loses exactly its two quotes.
proof fn lemma_unquote_text(t: Seq<char>)
    requires
        lacks(t, '"'),
    ensures
        text::without_char(seq!['"'] + t + seq!['"'], '"') == t,
{
    let q = seq!['"'];
    text::lemma_without_char_concat(q + t, q, '"');
    text::lemma_without_char_concat(q, t, '"');
    text::lemma_without_char_absent(t, '"');
    assert(q.len() == 1 && q.last() == '"');
    assert(q.drop_last() =~= Seq::<char>::empty());
    assert(text::without_char(Seq::<char>::empty(), '"') == Seq::<char>::empty());
    assert(text::without_char(q, '"') =~= Seq::<char>::empty());
    assert(Seq::<char>::empty() + t + Seq::<char>::empty() =~= t);
}

/// A `Signature` header written for a signed fetch reads back, on the
/// verifying side, as the same key id, the same base64 signature and the
/// signed-header list, when the key id holds no comma, quote or `[`.
pub proof fn law_signature_header_parses_back(key_id: Seq<char>, signature: Seq<u8>)
    requires
        lacks(key_id, ','),
        lacks(key_id, '"'),
        lacks(key_id, '['),
    ensures
        ({
            let params = signature_params_spec(
                crate::fetch::fetch_signature_header(key_id, digest::base64_spec(signature)),
            );
            &&& param_lookup(params, "keyId"@) is Some
            &&& text::without_char(param_lookup(params, "keyId"@)->0, '"') == key_id
            &&& param_lookup(params, "signature"@) is Some
            &&& text::without_char(param_lookup(params, "signature"@)->0, '"')
                == digest::base64_spec(signature)
            &&& param_lookup(params, "headers"@) == Some(
                "\"(request-target) host date accept\""@,
            )
        }),
{
    let s = digest::base64_spec(signature);
    digest::lemma_base64_chars(signature);
    assert(lacks(s, ',') && lacks(s, '"') && lacks(s, '[')) by {
        assert forall|i: int| 0 <= i < s.len() implies s[i] != ',' && s[i] != '"' && s[i] != '[' by {
            assert(!digest::outside_base64(s[i]));
        }
    }
    reveal_strlit("keyId=\"");
    reveal_strlit("\",headers=\"(request-target) host date accept\",signature=\"");
    reveal_strlit("\"");
    reveal_strlit("keyId");
    reveal_strlit("signature");
    reveal_strlit("headers");
    reveal_strlit("\"(request-target) host date accept\"");
    let q = seq!['"'];
    let k1 = "keyId"@;
    let k2 = "headers"@;
    let k3 = "signature"@;
    let v1 = q + key_id + q;
    let v2 = "\"(request-target) host date accept\""@;
    let v3 = q + s + q;
    let p1 = k1.push('=') + v1;
    let p2 = k2.push('=') + v2;
    let p3 = k3.push('=') + v3;
    let header = crate::fetch::fetch_signature_header(key_id, s);
    assert(header =~= p1.push(',') + p2.push(',') + p3);

    assert(lacks(q, ',') && lacks(q, '['));
    lemma_lacks_concat(q, key_id, ',');
    lemma_lacks_concat(q + key_id, q, ',');
    lemma_lacks_concat(k1.push('='), v1, ',');
    lemma_lacks_concat(k2.push('='), v2, ',');
    lemma_lacks_concat(q, s, ',');
    lemma_lacks_concat(q + s, q, ',');
    lemma_lacks_concat(k3.push('='), v3, ',');
    lemma_split_three(p1, p2, p3);

    lemma_lacks_concat(q, key_id, '[');
    lemma_lacks_concat(q + key_id, q, '[');
    lemma_lacks_concat(q, s, '[');
    lemma_lacks_concat(q + s, q, '[');
    lemma_param_of_piece(k1, v1);
    lemma_param_of_piece(k2, v2);
    lemma_param_of_piece(k3, v3);
    lemma_params_three(p1, p2, p3, (k1, v1), (k2, v2), (k3, v3));
    assert(k1 != k2 && k1 != k3 && k2 != k3) by {
        assert(k1.len() != k2.len() && k1.len() != k3.len() && k2.len() != k3.len());
    }
    lemma_lookup_three(k1, v1, k2, v2, k3, v3);
    lemma_unquote_text(key_id);
    lemma_unquote_text(s);
}


/// The digest a request must carry is `SHA-256=` followed by the base64 of the
/// SHA-256 of its body's exact UTF-8 bytes: for every body, a `Digest` header
/// holding that text is the one the digest check accepts.
pub proof fn law_digest_covers_exact_body(body: Seq<char>, digest: Seq<char>)
    requires
        digest == "SHA-256="@ + digest::base64_spec(
            digest::sha256_spec(vstd::utf8::encode_utf8(body)),
        ),
    ensures
        digest == expected_digest(body),
{
}

} // verus!
