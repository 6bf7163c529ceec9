# bayou

A small ActivityPub server. The library in `src/` holds its protocol logic,
verified with Verus: WebFinger queries and answers, the `Digest` and
`Signature` checks of incoming requests, signed fetches, actor documents and
links, the cache of remote objects, the steps of handling a follow, account
keys and permission levels. Calls into outside crates (OpenSSL, the URL
parser, Ed25519 and Argon2) sit behind small trusted wrappers whose contracts
say what those crates promise.

`app/` is the server around it: settings, the PostgreSQL store and the HTTP
routes. `tests/` exercises the library with the real outside crates.
