# pulsar_vault

A file vault with two container formats (TPF2 and TPF3), Argon2id + HKDF key
schedules, AES-256-GCM / XChaCha20-Poly1305 payloads and an optional BLAKE3
dataset binding, written in Verus.

Layout:

- `src/` — the verified library.
  - `format.rs`: TPF2/TPF3 headers, their byte encodings, parsers and
    validation rules; `format_laws.rs`: round-trip and dispatch lemmas.
  - `crypto.rs`: key derivation, streaming dataset hashing and AEAD framing;
    `vault.rs`: whole vault files (header followed by payload), sealing and
    opening, for derived and TPM-wrapped content keys.
  - `tpm.rs`: TPM key scopes, the policy blob stored in TPF3 headers, alias and
    size checks, UTF-16 names; `text.rs`: trimming, answers and menu choices;
    `shred.rs`: the write schedule of the two-pass overwrite.
  - `primitives.rs`: the trusted boundary — wrappers around the outside
    cryptographic crates, with the contracts the library relies on.
- `tests/` — executable tests, including known-answer vectors.
- `app/` — the interactive command-line program: prompts, files, randomness
  for salts, and the Windows system calls (memory locking, clipboard, TPM key
  storage provider).
