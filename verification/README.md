# sealed_chat

The verified core of an end-to-end encrypted chat: a relay server that stores
only ciphertext, and a desktop client that encrypts before anything leaves it.

`src/` is a Verus library. Every function in it carries a contract that Verus
proves; the few items that call other crates (AES-256-GCM, X25519, Ed25519,
SHA-256, HKDF, Argon2, base64, the OS random generator) are gathered in
`src/primitives.rs`, each with a doc comment that says what its contract
assumes of the outside code.

- `cipher`, `identity`, `session`, `kdf`: symmetric encryption, identity key
  pairs and their wire format, the X25519 session agreement, the key
  encryption key derivation.
- `desktop`: what the client computes over base64 text for its frontend.
- `auth`, `invites`, `routes`, `rate_limit`, `ws`, `state`, `schema`, `error`:
  the relay server's decisions. Endpoints that interleave store access with decisions
  (registration, login, invitations, conversation creation, sending and
  listing messages) are
  step functions from a state and the store's last answer to the next action.
- `protocol`, `message`: the request and response bodies and the message
  content model.
- `text`, `bytes`: verified text and byte helpers.

`app/` is the server binary: HTTP routing, SQLite, JWT and the WebSocket loop,
which run the library's decisions and perform its actions. `tests/` exercise
the library, including known-answer vectors for the cryptographic primitives.
