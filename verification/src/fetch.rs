//! Signed ("authorized") fetches of remote ActivityPub objects.
use vstd::prelude::*;

use crate::digest;
use crate::digest::base64_encode;
use crate::urls::{concat2, UrlParts};
use crate::webfinger::eq_str;

verus! {

/// Why fetching a remote object failed.
pub enum FetchErr {
    IsTombstone(String),
    RequestErr(String),
    DeserializationErr(String),
    InvalidUrl(String),
}

impl FetchErr {
    /// The text of the error, as its `Display` form gives it: the variant
    /// name, a colon and a space, then the message.
    pub fn to_display_string(&self) -> (s: String)
        ensures
            s@ == match self {
                FetchErr::IsTombstone(x) => "IsTombstone: "@ + x@,
                FetchErr::RequestErr(x) => "RequestErr: "@ + x@,
                FetchErr::DeserializationErr(x) => "DeserializationErr: "@ + x@,
                FetchErr::InvalidUrl(x) => "InvalidUrl: "@ + x@,
            },
    {
        match self {
            FetchErr::IsTombstone(x) => concat2("IsTombstone: ", x.as_str()),
            FetchErr::RequestErr(x) => concat2("RequestErr: ", x.as_str()),
            FetchErr::DeserializationErr(x) => concat2("DeserializationErr: ", x.as_str()),
            FetchErr::InvalidUrl(x) => concat2("InvalidUrl: ", x.as_str()),
        }
    }
}

/// The headers that sign a fetch: the host, the date and the `Signature` header.
pub struct SignedFetch {
    pub host: String,
    pub date: String,
    pub signature_header: String,
}

/// The IMF-fixdate (RFC 9110) of a time given in seconds since the Unix epoch.
pub uninterp spec fn http_date_spec(unix_seconds: u64) -> Seq<char>;

/// What an RSA PKCS#1 v1.5 SHA-256 signature of `message` with the private key
/// read from `pem` (with an empty passphrase) is: `None` when openssl reports
/// an error.
pub uninterp spec fn rsa_sha256_sign_spec(pem: Seq<u8>, message: Seq<u8>) -> Option<Seq<u8>>;

/// `httpdate::fmt_http_date` of the time `unix_seconds` after the epoch; named
/// by `http_date_spec`. It panics from the year 9999 on, which `requires`
/// leaves out.
#[verifier::external_body]
pub(crate) fn http_date(unix_seconds: u64) -> (s: String)
    requires
        unix_seconds < 253402300800,
    ensures
        s@ == http_date_spec(unix_seconds),
{
    httpdate::fmt_http_date(std::time::UNIX_EPOCH + std::time::Duration::from_secs(unix_seconds))
}

/// `openssl::sign::Signer` with SHA-256 over an RSA private key read from PEM
/// (`Rsa::private_key_from_pem_passphrase` with an empty passphrase, so that
/// openssl never asks the terminal for one, `PKey::from_rsa`, `Signer::new`,
/// `update`, `sign_to_vec`); `None` when one of these reports an error. Named
/// by `rsa_sha256_sign_spec`: PKCS#1 v1.5 signing depends on the key and the
/// message alone; RSA itself is not restated. Reading the PEM panics when it
/// is longer than a C `int` allows, which `requires` leaves out.
#[verifier::external_body]
pub(crate) fn rsa_sha256_sign(pem: &[u8], message: &[u8]) -> (r: Option<Vec<u8>>)
    requires
        pem@.len() <= 0x7fff_ffff,
    ensures
        match r {
            Some(s) => rsa_sha256_sign_spec(pem@, message@) == Some(s@),
            None => rsa_sha256_sign_spec(pem@, message@) is None,
        },
{
    let key = openssl::rsa::Rsa::private_key_from_pem_passphrase(pem, b"").ok()?;
    let key = openssl::pkey::PKey::from_rsa(key).ok()?;
    let mut signer = openssl::sign::Signer::new(openssl::hash::MessageDigest::sha256(), &key).ok()?;
    signer.update(message).ok()?;
    signer.sign_to_vec().ok()
}

/// The text a fetch signs: request target, host, date and accepted type.
pub open spec fn fetch_signing_text(path: Seq<char>, host: Seq<char>, date: Seq<char>) -> Seq<char> {
    "(request-target): get "@ + path + "\nhost: "@ + host + "\ndate: "@ + date
        + "\naccept: application/activity+json"@
}

/// The `Signature` header of a fetch.
pub open spec fn fetch_signature_header(key_id: Seq<char>, signature: Seq<char>) -> Seq<char> {
    "keyId=\""@ + key_id + "\",headers=\"(request-target) host date accept\",signature=\""@
        + signature + "\""@
}

/// Signs a fetch of `object_id` with the key `key_id` whose RSA private key is
/// `private_key_pem`, at the time `unix_seconds`, which must lie before the
/// year 10000 (HTTP dates end there) when a date is written. A URL without a
/// host is refused as invalid at any time. `None` where the fetch aborts: the
/// key's PEM is too long for openssl, or openssl cannot sign with the key.
pub fn sign_fetch(object_id: &UrlParts, key_id: &str, private_key_pem: &str, unix_seconds: u64) -> (r:
    Option<Result<SignedFetch, FetchErr>>)
    requires
        object_id.host is Some ==> unix_seconds < 253402300800,
    ensures
        match object_id.host {
            None => r matches Some(Err(FetchErr::InvalidUrl(u))) && u@ == object_id.serialization@,
            Some(host) => if vstd::utf8::encode_utf8(private_key_pem@).len() > 0x7fff_ffff {
                r is None
            } else {
                let date = http_date_spec(unix_seconds);
                let message = vstd::utf8::encode_utf8(
                    fetch_signing_text(object_id.path@, host@, date),
                );
                match rsa_sha256_sign_spec(vstd::utf8::encode_utf8(private_key_pem@), message) {
                    None => r is None,
                    Some(sig) => if !digest::base64_encodable(sig.len()) {
                        r is None
                    } else {
                        r matches Some(Ok(f)) && f.host@ == host@ && f.date@ == date
                            && f.signature_header@ == fetch_signature_header(
                            key_id@,
                            digest::base64_spec(sig),
                        )
                    },
                }
            },
        },
{
    let host = match &object_id.host {
        Some(h) => h,
        None => return Some(Err(FetchErr::InvalidUrl(object_id.serialization.clone()))),
    };
    if private_key_pem.as_bytes().len() > 0x7fff_ffff {
        return None;
    }
    let date = http_date(unix_seconds);
    let mut text = String::from_str("(request-target): get ");
    text.append(object_id.path.as_str());
    text.append("\nhost: ");
    text.append(host.as_str());
    text.append("\ndate: ");
    text.append(date.as_str());
    text.append("\naccept: application/activity+json");
    let signature = match rsa_sha256_sign(private_key_pem.as_bytes(), text.as_str().as_bytes()) {
        Some(s) => s,
        None => return None,
    };
    let n = signature.len();
    if n > 0x7fff_ffff || 4 * ((n + 2) / 3) + 1 > 0x7fff_ffff {
        return None;
    }
    let encoded = base64_encode(signature.as_slice());
    let mut header = String::from_str("keyId=\"");
    header.append(key_id);
    header.append("\",headers=\"(request-target) host date accept\",signature=\"");
    header.append(encoded.as_str());
    header.append("\"");
    Some(Ok(SignedFetch { host: host.clone(), date, signature_header: header }))
}

/// The body a server answers with for an object that was deleted.
pub open spec fn gone_body() -> Seq<char> {
    "{\"error\":\"Gone\"}"@
}

/// Checks the text of a fetch response: a server that answers "Gone" marks
/// the object as deleted.
pub fn check_fetch_response(object_id: &UrlParts, response: &str) -> (r: Result<(), FetchErr>)
    ensures
        if response@ == gone_body() {
            r matches Err(FetchErr::IsTombstone(u)) && u@ == object_id.serialization@
        } else {
            r is Ok
        },
{
    if eq_str(response, "{\"error\":\"Gone\"}") {
        Err(FetchErr::IsTombstone(object_id.serialization.clone()))
    } else {
        Ok(())
    }
}


/// A fetch signs its request target as `get` followed by the fetched URL's path
/// exactly as given, then the host and the date, and ends with the accepted
/// type.
pub proof fn law_fetch_signs_exact_path(path: Seq<char>, host: Seq<char>, date: Seq<char>)
    ensures
        ("(request-target): get "@ + path).is_prefix_of(fetch_signing_text(path, host, date)),
        ("(request-target): get "@ + path + "\nhost: "@ + host + "\ndate: "@ + date).is_prefix_of(
            fetch_signing_text(path, host, date),
        ),
        "\naccept: application/activity+json"@.is_suffix_of(fetch_signing_text(path, host, date)),
{
    let t = fetch_signing_text(path, host, date);
    let a = "(request-target): get "@ + path;
    let b = a + "\nhost: "@ + host + "\ndate: "@ + date;
    let c = "\naccept: application/activity+json"@;
    assert(t =~= b + c);
    assert(b == a + ("\nhost: "@ + host + "\ndate: "@ + date)) by {
        assert(b =~= a + ("\nhost: "@ + host + "\ndate: "@ + date));
    }
    assert(t.subrange(0, a.len() as int) =~= a);
    assert(t.subrange(0, b.len() as int) =~= b);
    assert(t.subrange(t.len() - c.len(), t.len() as int) =~= c);
}

} // verus!
