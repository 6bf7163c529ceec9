//! Signing keys of accounts, and the record of a new local account.
use vstd::prelude::*;

use crate::permission::PermissionLevel;
use argon2::password_hash::PasswordHasher;
use ed25519::pkcs8::spki::der::pem::LineEnding;
use ed25519::pkcs8::{EncodePrivateKey, EncodePublicKey};

verus! {

/// The key algorithms the instance can generate.
#[derive(Debug, Clone, Copy, PartialEq, Eq, Structural)]
pub enum KeyType {
    Ed25519,
}

/// A private signing key, held as its secret bytes.
pub enum AlgorithmsPrivateKey {
    /// the 32 secret bytes of an Ed25519 key (`SigningKey::to_bytes`)
    Ed25519([u8; 32]),
}

/// The PKCS#8 PEM text of the Ed25519 key with the given secret bytes
/// (`SigningKey::to_pkcs8_pem`), with CRLF line endings when `crlf` holds and
/// LF ones otherwise; `None` when encoding fails.
pub uninterp spec fn ed25519_private_pem_spec(secret: Seq<u8>, crlf: bool) -> Option<Seq<char>>;

/// The SubjectPublicKeyInfo PEM text of the public half of the Ed25519 key
/// with the given secret bytes, with CRLF line endings when `crlf` holds and
/// LF ones otherwise; `None` when encoding fails.
pub uninterp spec fn ed25519_public_pem_spec(secret: Seq<u8>, crlf: bool) -> Option<Seq<char>>;

/// The public-key PEM (`PKey::public_key_to_pem`) of the key whose PKCS#8
/// PEM (`PKey::private_key_to_pem_pkcs8`) is given.
pub uninterp spec fn openssl_public_pem_spec(private_pem: Seq<char>) -> Seq<char>;

/// Whether openssl reads the PKCS#8 PEM as an Ed25519 private key
/// (`PKey::private_key_from_pem`, whose `id` is then `Id::ED25519`).
pub uninterp spec fn openssl_pem_is_ed25519(private_pem: Seq<char>) -> bool;

/// Whether openssl reads the PKCS#8 PEM as an RSA private key
/// (`PKey::private_key_from_pem`, whose `id` is then `Id::RSA`).
pub uninterp spec fn openssl_pem_is_rsa(private_pem: Seq<char>) -> bool;

/// The PHC string that Argon2 with default parameters makes of a password
/// and a salt (`Argon2::hash_password`).
pub uninterp spec fn argon2_phc_spec(password: Seq<u8>, salt: Seq<char>) -> Seq<char>;

/// `SigningKey::generate` with the operating system's random generator
/// (`rand::rngs::OsRng`), read back as its secret bytes. The bytes are random:
/// nothing is promised of them.
#[verifier::external_body]
fn random_ed25519_secret() -> (secret: [u8; 32]) {
    ed25519_dalek::SigningKey::generate(&mut rand::rngs::OsRng).to_bytes()
}

/// Whether `LineEnding::default()` is CRLF (it is on Windows, LF elsewhere).
/// The answer depends on the machine the code was built for: nothing is
/// promised of it.
#[verifier::external_body]
fn default_line_ending_is_crlf() -> bool {
    match LineEnding::default() {
        LineEnding::CRLF => true,
        LineEnding::LF => false,
        LineEnding::CR => false,
    }
}

/// `SigningKey::from_bytes` then `EncodePrivateKey::to_pkcs8_pem` with the
/// line ending `LineEnding::CRLF` when `crlf` holds and `LineEnding::LF`
/// otherwise; named by `ed25519_private_pem_spec`.
#[verifier::external_body]
fn ed25519_private_pem(secret: &[u8; 32], crlf: bool) -> (r: Option<String>)
    ensures
        r.deep_view() == ed25519_private_pem_spec(secret@, crlf),
{
    let ending = if crlf { LineEnding::CRLF } else { LineEnding::LF };
    let key = ed25519_dalek::SigningKey::from_bytes(secret);
    key.to_pkcs8_pem(ending).ok().map(|pem| pem.to_string())
}

/// `SigningKey::from_bytes`, `verifying_key` then
/// `EncodePublicKey::to_public_key_pem` with the line ending `LineEnding::CRLF`
/// when `crlf` holds and `LineEnding::LF` otherwise; named by
/// `ed25519_public_pem_spec`.
#[verifier::external_body]
fn ed25519_public_pem(secret: &[u8; 32], crlf: bool) -> (r: Option<String>)
    ensures
        r.deep_view() == ed25519_public_pem_spec(secret@, crlf),
{
    let ending = if crlf { LineEnding::CRLF } else { LineEnding::LF };
    let key = ed25519_dalek::SigningKey::from_bytes(secret);
    key.verifying_key().to_public_key_pem(ending).ok()
}

impl AlgorithmsPrivateKey {
    /// The secret bytes of the key.
    pub open spec fn secret(&self) -> Seq<u8> {
        match self {
            AlgorithmsPrivateKey::Ed25519(s) => s@,
        }
    }

    /// A fresh random key of the given algorithm.
    pub fn generate(algorithm: KeyType) -> (k: AlgorithmsPrivateKey)
        ensures
            k is Ed25519,
    {
        match algorithm {
            KeyType::Ed25519 => AlgorithmsPrivateKey::Ed25519(random_ed25519_secret()),
        }
    }

    /// The PKCS#8 PEM text of the key, with the line ending of the machine
    /// (CRLF on Windows, LF elsewhere); its encoding must succeed with either.
    pub fn private_key_pem(&self) -> (s: String)
        requires
            forall|crlf: bool| (#[trigger] ed25519_private_pem_spec(self.secret(), crlf)) is Some,
        ensures
            exists|crlf: bool| Some(s@) == #[trigger] ed25519_private_pem_spec(self.secret(), crlf),
    {
        match self {
            AlgorithmsPrivateKey::Ed25519(secret) => {
                let crlf = default_line_ending_is_crlf();
                assert(ed25519_private_pem_spec(self.secret(), crlf) is Some);
                match ed25519_private_pem(secret, crlf) {
                    Some(pem) => {
                        assert(Some(pem@) == ed25519_private_pem_spec(self.secret(), crlf));
                        pem
                    },
                    None => vstd::pervasive::unreached(),
                }
            },
        }
    }

    /// The PKCS#8 PEM text of the key, or `None` when encoding fails with a
    /// line ending.
    pub fn try_private_key_pem(&self) -> (r: Option<String>)
        ensures
            r is Some <==> forall|crlf: bool|
                (#[trigger] ed25519_private_pem_spec(self.secret(), crlf)) is Some,
            r matches Some(s) ==> exists|crlf: bool|
                Some(s@) == #[trigger] ed25519_private_pem_spec(self.secret(), crlf),
    {
        match self {
            AlgorithmsPrivateKey::Ed25519(secret) => {
                let lf = ed25519_private_pem(secret, false);
                let crlf = ed25519_private_pem(secret, true);
                if lf.is_some() && crlf.is_some() {
                    proof {
                        assert forall|c: bool|
                            (#[trigger] ed25519_private_pem_spec(self.secret(), c)) is Some by {
                            if c {
                            } else {
                            }
                        }
                    }
                    Some(self.private_key_pem())
                } else {
                    None
                }
            },
        }
    }

    /// The public-key PEM text of the key, with the line ending of the
    /// machine (CRLF on Windows, LF elsewhere); its encoding must succeed with
    /// either.
    pub fn public_key_pem(&self) -> (s: String)
        requires
            forall|crlf: bool| (#[trigger] ed25519_public_pem_spec(self.secret(), crlf)) is Some,
        ensures
            exists|crlf: bool| Some(s@) == #[trigger] ed25519_public_pem_spec(self.secret(), crlf),
    {
        match self {
            AlgorithmsPrivateKey::Ed25519(secret) => {
                let crlf = default_line_ending_is_crlf();
                assert(ed25519_public_pem_spec(self.secret(), crlf) is Some);
                match ed25519_public_pem(secret, crlf) {
                    Some(pem) => {
                        assert(Some(pem@) == ed25519_public_pem_spec(self.secret(), crlf));
                        pem
                    },
                    None => vstd::pervasive::unreached(),
                }
            },
        }
    }

    /// The public-key PEM text of the key, or `None` when encoding fails with
    /// a line ending.
    pub fn try_public_key_pem(&self) -> (r: Option<String>)
        ensures
            r is Some <==> forall|crlf: bool|
                (#[trigger] ed25519_public_pem_spec(self.secret(), crlf)) is Some,
            r matches Some(s) ==> exists|crlf: bool|
                Some(s@) == #[trigger] ed25519_public_pem_spec(self.secret(), crlf),
    {
        match self {
            AlgorithmsPrivateKey::Ed25519(secret) => {
                let lf = ed25519_public_pem(secret, false);
                let crlf = ed25519_public_pem(secret, true);
                if lf.is_some() && crlf.is_some() {
                    proof {
                        assert forall|c: bool|
                            (#[trigger] ed25519_public_pem_spec(self.secret(), c)) is Some by {
                            if c {
                            } else {
                            }
                        }
                    }
                    Some(self.public_key_pem())
                } else {
                    None
                }
            },
        }
    }
}

/// A fresh Ed25519 key made by openssl (`PKey::generate_ed25519`), returned as
/// its PKCS#8 PEM (`private_key_to_pem_pkcs8`) and its public-key PEM
/// (`public_key_to_pem`). The key is random; what holds of every outcome is
/// that the first text is an Ed25519 key and the second its public half.
#[verifier::external_body]
fn generate_openssl_ed25519_pems() -> (r: (String, String))
    ensures
        openssl_pem_is_ed25519(r.0@),
        r.1@ == openssl_public_pem_spec(r.0@),
{
    let key = openssl::pkey::PKey::generate_ed25519().unwrap();
    let private_pem = String::from_utf8(key.private_key_to_pem_pkcs8().expect("generated an invalid key")).unwrap();
    let public_pem = String::from_utf8(key.public_key_to_pem().expect("generated an invalid key")).unwrap();
    (private_pem, public_pem)
}

/// A fresh 2048-bit RSA key made by openssl (`Rsa::generate`, `PKey::from_rsa`),
/// returned as its PKCS#8 PEM (`private_key_to_pem_pkcs8`) and its public-key
/// PEM (`public_key_to_pem`). The key is random; what holds of every outcome
/// is that the first text is an RSA key and the second its public half.
#[verifier::external_body]
pub(crate) fn generate_openssl_rsa_pems() -> (r: (String, String))
    ensures
        openssl_pem_is_rsa(r.0@),
        r.1@ == openssl_public_pem_spec(r.0@),
{
    let key = openssl::pkey::PKey::from_rsa(openssl::rsa::Rsa::generate(2048).unwrap()).unwrap();
    let private_pem = String::from_utf8(key.private_key_to_pem_pkcs8().expect("generated an invalid key")).unwrap();
    let public_pem = String::from_utf8(key.public_key_to_pem().expect("generated an invalid key")).unwrap();
    (private_pem, public_pem)
}

/// `Argon2::default().hash_password` with a fresh salt
/// (`SaltString::generate` over `OsRng`), as a PHC string. The salt is random:
/// what holds of every outcome is that the text is the Argon2 hash of the
/// password under some salt. It fails only for passwords longer than
/// `u32::MAX` bytes, which `requires` leaves out.
#[verifier::external_body]
fn argon2_hash_fresh_salt(password: &[u8]) -> (r: String)
    requires
        password@.len() <= 0xffff_ffff,
    ensures
        exists|salt: Seq<char>| r@ == argon2_phc_spec(password@, salt),
{
    let salt = argon2::password_hash::SaltString::generate(&mut argon2::password_hash::rand_core::OsRng);
    argon2::Argon2::default().hash_password(password, &salt).unwrap().to_string()
}

/// A new local account as it is handed to the database: the password is
/// already an Argon2 hash with its salt, so the database need not hash it.
pub struct NewLocal {
    pub username: String,
    pub password: String,
    pub email: Option<String>,
    pub permission_level: PermissionLevel,
    pub private_key_pem: String,
    pub public_key_pem: String,
}

impl NewLocal {
    /// A new local account with a fresh Ed25519 key pair and the password
    /// hashed with a fresh salt; the permission level defaults to an untrusted user.
    pub fn new(
        username: String,
        password: String,
        email: Option<String>,
        permission_level: Option<PermissionLevel>,
    ) -> (n: NewLocal)
        requires
            vstd::utf8::encode_utf8(password@).len() <= 0xffff_ffff,
        ensures
            n.username == username,
            n.email == email,
            n.permission_level == match permission_level {
                Some(p) => p,
                None => PermissionLevel::UntrustedUser,
            },
            exists|salt: Seq<char>|
                n.password@ == argon2_phc_spec(vstd::utf8::encode_utf8(password@), salt),
            openssl_pem_is_ed25519(n.private_key_pem@),
            n.public_key_pem@ == openssl_public_pem_spec(n.private_key_pem@),
    {
        let permission_level = match permission_level {
            Some(x) => x,
            None => PermissionLevel::UntrustedUser,
        };
        let (private_key_pem, public_key_pem) = generate_openssl_ed25519_pems();
        let password_hash = argon2_hash_fresh_salt(password.as_str().as_bytes());
        NewLocal {
            username,
            password: password_hash,
            email,
            permission_level,
            private_key_pem,
            public_key_pem,
        }
    }
}

} // verus!
