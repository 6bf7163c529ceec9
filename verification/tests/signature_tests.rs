use bayou::actors::InstanceActor;
use bayou::digest::{generate_digest, sha256_hash};
use bayou::fetch::{check_fetch_response, sign_fetch, FetchErr};
use bayou::signature::{
    build_comparison_string, check_digest_and_signature_header, check_request_signature,
    parse_signature_header, read_request_text, IncomingRequest, RequestVerificationError,
};
use bayou::urls::UrlParts;

fn rsa_keys() -> (String, String) {
    let rsa = openssl::rsa::Rsa::generate(2048).unwrap();
    let private_pem = String::from_utf8(rsa.private_key_to_pem().unwrap()).unwrap();
    let public_pem = String::from_utf8(rsa.public_key_to_pem().unwrap()).unwrap();
    (private_pem, public_pem)
}

fn sign(private_pem: &str, text: &str) -> String {
    let key = openssl::pkey::PKey::private_key_from_pem(private_pem.as_bytes()).unwrap();
    let mut signer =
        openssl::sign::Signer::new(openssl::hash::MessageDigest::sha256(), &key).unwrap();
    signer.update(text.as_bytes()).unwrap();
    openssl::base64::encode_block(&signer.sign_to_vec().unwrap())
}

fn header(name: &str, value: &str) -> (String, Vec<u8>) {
    (name.to_string(), value.as_bytes().to_vec())
}

const BODY: &str = r#"{"type":"Note"}"#;
const PATH: &str = "/users/alice/inbox";
const DOMAIN: &str = "example.com";
const DATE: &str = "Sun, 06 Nov 1994 08:49:37 GMT";

fn signed_request(private_pem: &str, key_id: &str) -> IncomingRequest {
    let digest = format!("SHA-256={}", generate_digest(BODY.as_bytes()));
    let text = format!(
        "(request-target): post {}\nhost: {}\ndate: {}\ndigest: {}",
        PATH, DOMAIN, DATE, digest
    );
    let signature = sign(private_pem, &text);
    let sig_header = format!(
        "keyId=\"{}\",headers=\"(request-target) host date digest\",signature=\"{}\"",
        key_id, signature
    );
    IncomingRequest {
        headers: vec![
            header("host", DOMAIN),
            header("date", DATE),
            header("digest", &digest),
            header("signature", &sig_header),
        ],
        body: BODY.as_bytes().to_vec(),
    }
}

#[test]
fn sha256_known_values() {
    assert_eq!(sha256_hash(b""), "47DEQpj8HBSa+/TImW+5JCeuQeRkm5NMpJWZG3hSuFU=");
    assert_eq!(sha256_hash(b"abc"), "ungWv48Bz+pBQUDeXa4iI7ADYaOWF3qctBD/YfIAFa0=");
    assert_eq!(generate_digest(b"abc"), sha256_hash(b"abc"));
}

#[test]
fn signed_request_is_accepted() {
    let (private_pem, public_pem) = rsa_keys();
    let key_id = "https://remote.example/users/bob#main-key";
    let request = signed_request(&private_pem, key_id);
    let text = read_request_text(&request).ok().unwrap();
    assert_eq!(text.body, BODY);
    let params = check_digest_and_signature_header(&request, &text, false).ok().unwrap();
    assert_eq!(params.key_id, key_id);
    assert_eq!(params.headers.as_deref(), Some("\"(request-target) host date digest\""));
    let outcome = check_request_signature(
        &request,
        &params,
        PATH,
        DOMAIN,
        "https://remote.example/users/bob",
        &public_pem,
        Some("https://remote.example/users/bob"),
    );
    assert!(matches!(outcome, Some(Ok(()))));
}

#[test]
fn tampered_body_is_refused() {
    let (private_pem, _) = rsa_keys();
    let mut request = signed_request(&private_pem, "k");
    request.body = br#"{"type":"Other"}"#.to_vec();
    let text = read_request_text(&request).ok().unwrap();
    assert!(matches!(
        check_digest_and_signature_header(&request, &text, false),
        Err(RequestVerificationError::DigestDoesNotMatch)
    ));
}

#[test]
fn wrong_key_is_refused() {
    let (private_pem, _) = rsa_keys();
    let (_, other_public) = rsa_keys();
    let request = signed_request(&private_pem, "k");
    let text = read_request_text(&request).ok().unwrap();
    let params = check_digest_and_signature_header(&request, &text, false).ok().unwrap();
    let outcome =
        check_request_signature(&request, &params, PATH, DOMAIN, "a", &other_public, None);
    assert!(matches!(
        outcome,
        Some(Err(RequestVerificationError::SignatureVerifyFailed))
    ));
}

#[test]
fn other_owner_is_refused() {
    let (private_pem, public_pem) = rsa_keys();
    let request = signed_request(&private_pem, "k");
    let text = read_request_text(&request).ok().unwrap();
    let params = check_digest_and_signature_header(&request, &text, false).ok().unwrap();
    let outcome = check_request_signature(
        &request,
        &params,
        PATH,
        DOMAIN,
        "https://remote.example/users/bob",
        &public_pem,
        Some("https://remote.example/users/eve"),
    );
    assert!(matches!(
        outcome,
        Some(Err(RequestVerificationError::KeyOwnerDoesNotMatch))
    ));
}

#[test]
fn unreadable_key_aborts() {
    let (private_pem, _) = rsa_keys();
    let request = signed_request(&private_pem, "k");
    let text = read_request_text(&request).ok().unwrap();
    let params = check_digest_and_signature_header(&request, &text, false).ok().unwrap();
    let outcome = check_request_signature(&request, &params, PATH, DOMAIN, "a", "not a key", None);
    assert!(outcome.is_none());
}

#[test]
fn missing_date_is_refused() {
    let (private_pem, public_pem) = rsa_keys();
    let mut request = signed_request(&private_pem, "k");
    request.headers.retain(|(n, _)| n != "date");
    let text = read_request_text(&request).ok().unwrap();
    let params = check_digest_and_signature_header(&request, &text, false).ok().unwrap();
    let outcome = check_request_signature(&request, &params, PATH, DOMAIN, "a", &public_pem, None);
    assert!(matches!(outcome, Some(Err(RequestVerificationError::NoDate))));
}

#[test]
fn missing_signed_header_list_is_refused() {
    let (private_pem, public_pem) = rsa_keys();
    let mut request = signed_request(&private_pem, "k");
    for h in request.headers.iter_mut() {
        if h.0 == "signature" {
            h.1 = b"keyId=\"k\",signature=\"abc\"".to_vec();
        }
    }
    let text = read_request_text(&request).ok().unwrap();
    let params = check_digest_and_signature_header(&request, &text, false).ok().unwrap();
    assert_eq!(params.headers, None);
    let outcome = check_request_signature(&request, &params, PATH, DOMAIN, "a", &public_pem, None);
    assert!(matches!(
        outcome,
        Some(Err(RequestVerificationError::NoSignatureHeaders))
    ));
}

#[test]
fn header_errors() {
    let digest = format!("SHA-256={}", generate_digest(BODY.as_bytes()));
    let no_digest = IncomingRequest { headers: vec![], body: BODY.as_bytes().to_vec() };
    assert!(matches!(
        read_request_text(&no_digest),
        Err(RequestVerificationError::NoMessageDigest)
    ));
    let bad_digest = IncomingRequest {
        headers: vec![("Digest".to_string(), vec![0xff, 0xfe])],
        body: BODY.as_bytes().to_vec(),
    };
    assert!(matches!(
        read_request_text(&bad_digest),
        Err(RequestVerificationError::BadMessageDigest)
    ));
    let bad_body = IncomingRequest {
        headers: vec![header("Digest", &digest)],
        body: vec![0xc3, 0x28],
    };
    assert!(matches!(
        read_request_text(&bad_body),
        Err(RequestVerificationError::BadMessageBody)
    ));

    let no_signature = IncomingRequest {
        headers: vec![header("DIGEST", &digest)],
        body: BODY.as_bytes().to_vec(),
    };
    let text = read_request_text(&no_signature).ok().unwrap();
    assert!(matches!(
        check_digest_and_signature_header(&no_signature, &text, false),
        Err(RequestVerificationError::NoMessageSignature)
    ));

    let bad_signature = IncomingRequest {
        headers: vec![header("digest", &digest), ("Signature".to_string(), vec![0xff])],
        body: BODY.as_bytes().to_vec(),
    };
    assert!(matches!(
        check_digest_and_signature_header(&bad_signature, &text, false),
        Err(RequestVerificationError::BadMessageSignature)
    ));

    let no_key = IncomingRequest {
        headers: vec![header("digest", &digest), header("signature", "signature=\"x\"")],
        body: BODY.as_bytes().to_vec(),
    };
    assert!(matches!(
        check_digest_and_signature_header(&no_key, &text, false),
        Err(RequestVerificationError::NoSignatureKey)
    ));

    let no_sig = IncomingRequest {
        headers: vec![header("digest", &digest), header("signature", "keyId=\"x\"")],
        body: BODY.as_bytes().to_vec(),
    };
    assert!(matches!(
        check_digest_and_signature_header(&no_sig, &text, false),
        Err(RequestVerificationError::NoSignature)
    ));
}

#[test]
fn signature_header_parsing() {
    let params = parse_signature_header("keyId=\"a=b\",nothing,signature=\"x==\",keyId=\"c\"");
    assert_eq!(
        params,
        vec![
            ("keyId".to_string(), "\"a=b\"".to_string()),
            ("signature".to_string(), "\"x==\"".to_string()),
            ("keyId".to_string(), "\"c\"".to_string()),
        ]
    );
    let stripped = parse_signature_header("ke/[^A-Za-z]/y=v");
    assert_eq!(stripped, vec![("key".to_string(), "v".to_string())]);
}

#[test]
fn comparison_string_lines() {
    let request = IncomingRequest {
        headers: vec![header("Date", DATE), header("Accept", "x/y")],
        body: vec![],
    };
    let s = build_comparison_string(&request, "\"(request-target) host date missing accept\"", PATH, DOMAIN)
        .unwrap();
    assert_eq!(
        s,
        format!(
            "(request-target): post {}\nhost: {}\ndate: {}\naccept: x/y",
            PATH, DOMAIN, DATE
        )
    );
    let unreadable = IncomingRequest { headers: vec![("date".to_string(), vec![0xff])], body: vec![] };
    assert!(build_comparison_string(&unreadable, "date", PATH, DOMAIN).is_none());
}

fn url(serialization: &str, host: Option<&str>, path: &str) -> UrlParts {
    UrlParts {
        serialization: serialization.to_string(),
        host: host.map(|h| h.to_string()),
        domain: host.map(|h| h.to_string()),
        path: path.to_string(),
    }
}

#[test]
fn signed_fetch_verifies_and_parses_back() {
    let (private_pem, public_pem) = rsa_keys();
    let object = url("https://remote.example/notes/1", Some("remote.example"), "/notes/1");
    let key_id = "https://example.com/actor/ap#main-key";
    let signed = sign_fetch(&object, key_id, &private_pem, 784111777).unwrap().ok().unwrap();
    assert_eq!(signed.host, "remote.example");
    assert_eq!(signed.date, DATE);
    let params = parse_signature_header(&signed.signature_header);
    assert_eq!(params.len(), 3);
    assert_eq!(params[0], ("keyId".to_string(), format!("\"{}\"", key_id)));
    assert_eq!(
        params[1],
        ("headers".to_string(), "\"(request-target) host date accept\"".to_string())
    );
    let signature = params[2].1.replace('"', "");
    let text = format!(
        "(request-target): get /notes/1\nhost: remote.example\ndate: {}\naccept: application/activity+json",
        DATE
    );
    let key = openssl::pkey::PKey::public_key_from_pem(public_pem.as_bytes()).unwrap();
    let mut verifier =
        openssl::sign::Verifier::new(openssl::hash::MessageDigest::sha256(), &key).unwrap();
    verifier.update(text.as_bytes()).unwrap();
    assert!(verifier.verify(&openssl::base64::decode_block(&signature).unwrap()).unwrap());
}

#[test]
fn fetch_without_host_is_invalid() {
    let object = url("data:text/plain,hi", None, "text/plain,hi");
    match sign_fetch(&object, "k", "irrelevant", 0) {
        Some(Err(FetchErr::InvalidUrl(u))) => assert_eq!(u, "data:text/plain,hi"),
        _ => panic!("expected an invalid url"),
    }
}

#[test]
fn fetch_with_unusable_key_aborts() {
    let object = url("https://remote.example/notes/1", Some("remote.example"), "/notes/1");
    assert!(sign_fetch(&object, "k", "not a key", 0).is_none());
}

#[test]
fn gone_response_is_tombstone() {
    let object = url("https://remote.example/notes/1", Some("remote.example"), "/notes/1");
    match check_fetch_response(&object, r#"{"error":"Gone"}"#) {
        Err(FetchErr::IsTombstone(u)) => assert_eq!(u, "https://remote.example/notes/1"),
        _ => panic!("expected a tombstone"),
    }
    assert!(check_fetch_response(&object, r#"{"id":"x"}"#).is_ok());
}

#[test]
fn fetch_error_display() {
    assert_eq!(FetchErr::IsTombstone("a".to_string()).to_display_string(), "IsTombstone: a");
    assert_eq!(FetchErr::RequestErr("b".to_string()).to_display_string(), "RequestErr: b");
    assert_eq!(
        FetchErr::DeserializationErr("c".to_string()).to_display_string(),
        "DeserializationErr: c"
    );
    assert_eq!(FetchErr::InvalidUrl("d".to_string()).to_display_string(), "InvalidUrl: d");
}

#[test]
fn generated_instance_actor_signs_fetches() {
    let actor = InstanceActor::generate();
    let key = openssl::pkey::PKey::private_key_from_pem(actor.private_key_pem.as_bytes()).unwrap();
    assert!(key.rsa().is_ok());
    assert_eq!(String::from_utf8(key.public_key_to_pem().unwrap()).unwrap(), actor.public_key_pem);
    let object = UrlParts::parse("https://remote.example/notes/2").unwrap();
    let signed = sign_fetch(&object, "k", &actor.private_key_pem, 784111777).unwrap().ok().unwrap();
    assert_eq!(signed.host, "remote.example");
    assert!(signed.signature_header.starts_with("keyId=\"k\",headers="));
}

#[test]
fn encrypted_signing_key_is_refused_without_prompting() {
    let rsa = openssl::rsa::Rsa::generate(2048).unwrap();
    let pem = rsa
        .private_key_to_pem_passphrase(openssl::symm::Cipher::aes_128_cbc(), b"secret")
        .unwrap();
    let pem = String::from_utf8(pem).unwrap();
    assert!(pem.contains("ENCRYPTED"));
    let object = UrlParts::parse("https://remote.example/notes/3").unwrap();
    assert!(sign_fetch(&object, "k", &pem, 784111777).is_none());
}

#[test]
fn digest_texts_have_fixed_length() {
    for body in [&b""[..], b"abc", b"a longer body of text"] {
        let d = sha256_hash(body);
        assert_eq!(d.len(), 44);
        assert!(d.ends_with('='));
        assert_eq!(generate_digest(body), d);
    }
}

#[test]
fn forged_attribution_is_refused_first() {
    let (private_pem, _) = rsa_keys();
    let mut request = signed_request(&private_pem, "k");
    request.body = br#"{"type":"Other"}"#.to_vec();
    let text = read_request_text(&request).ok().unwrap();
    assert!(matches!(
        check_digest_and_signature_header(&request, &text, true),
        Err(RequestVerificationError::ForgedAttribution)
    ));
}

#[test]
fn fetch_without_host_is_invalid_at_any_time() {
    let object = UrlParts::parse("data:text/plain,hi").unwrap();
    assert!(object.host.is_none());
    match sign_fetch(&object, "k", "irrelevant", u64::MAX) {
        Some(Err(FetchErr::InvalidUrl(u))) => assert_eq!(u, "data:text/plain,hi"),
        _ => panic!("expected an invalid url"),
    }
}
