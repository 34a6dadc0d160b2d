# crypto_core

Envelope encryption for activity logs, verified with Verus.

A log payload is sealed with AES-256-GCM under a 32-byte data key; the data key is
wrapped, for each recipient (the user and a guardian), under a shared secret that a key
encapsulation mechanism (ML-KEM-1024 in the default setup) establishes with the
recipient's public key. Data keys rotate daily and are named `datakey-YYYY-MM-DD`.

## Layout

- `src/` — the verified library.
  - `crypto/` — backend interfaces and the data-key wrap (XOR with the shared secret).
  - `domain/` — data keys, sealed logs, envelopes, packages, timestamps.
  - `service/` — encryption, decryption, key management and sharing services.
  - `core_facade.rs` — one entry point over all services.
  - `adapters/` — AES-256-GCM (`aes-gcm`), the OS random source (`rand`), envelope
    sealing over any KEM, and the default assembly.
  - `app_support/` — daily key schedule and calendar, data-key service, repositories.
  - `ffi/` — what each call of the C interface decides: argument checks, status codes,
    last-error message, and the wire form of packages and envelopes.
- `app/` — the ML-KEM backend over `oqs`, the C interface's pointers, buffers, JSON and
  thread-local state, and the process-wide sequences of log and envelope ids that every
  facade and service built there shares.
- `tests/` — tests run against the compiled library.
