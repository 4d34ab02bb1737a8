# secopy — scpy.app, verified

scpy.app is an end-to-end encrypted live clipboard: a browser encrypts the
clipboard under a room key that only password holders can unwrap, and the
server stores and relays ciphertext without ever seeing a password or a
plaintext.

`src/` is the verified library:

- `primitives.rs` — the calls into std, base64, chacha20poly1305, argon2,
  getrandom and zeroize, each with the contract its source or documentation
  supports; the only unproved part of the library.
- `crypto.rs` — room creation, key wrapping with Argon2id and
  XChaCha20-Poly1305, clipboard sealing and opening, with the round trips
  (what a password unlocks, what a key opens) proved in the contracts.
- `protocol.rs` — the request, response and event bodies.
- `store.rs` — the expiring in-memory room store (read-after-write, lazy
  eviction) and the Redis key and expiry layout.
- `api.rs` — the server's decisions: room ids, validation, what each request
  stores, publishes and answers, and the event-stream steps.
- `client.rs` — the browser's room session: unlocking, sending and receiving
  updates.

`app/` is the server program around the library: axum routes, the shared
async stores (memory and Redis), broadcast channels, and the Leptos pages.
