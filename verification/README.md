# KESTREL Vault

The core of a local-first password vault, verified with Verus: the
functions in `src/` carry `requires`/`ensures` contracts that Verus proves,
and the properties that span several functions stand as public proof
functions named `law_*`. The calls into outside crates and std (the
clock, the random generator, Argon2, HKDF, AES-GCM, SHA-256, UUID parsing
and printing, JSON lists, zeroizing, text rendering) go through small functions marked
`#[verifier::external_body]`, whose contracts are trusted, not proved;
each names the outside function it calls in its doc comment.

## Layout

- `src/crypto` — key derivation (Argon2id), AES-256-GCM field envelopes
  with their byte format, the data key wrapped under the password key,
  HKDF sub-keys, random values, KDF parameters.
- `src/security` — failed-attempt lockout, per-operation rate limits, the
  vault lifecycle state machine.
- `src/scanner` — password pattern detection, warnings and suggestions,
  breach-hash lookup, the vault security score, finding reports.
- `src/db` — schema migrations and their history check, pagination,
  statistics, backup naming, checks and ordering, SQLCipher key format.
- `src/commands` — input validation of every command, settings updates
  with their audit records, the authentication gate (initialize, unlock,
  lock, change password, which re-wraps the same data key).
- `src/config`, `src/vault`, `src/audit` — configuration with its limits,
  entries, folders, search queries, and the vault service: what a new or
  updated entry or secure note stores, each sensitive field sealed under
  the data key (tags as their sealed JSON list).
- `app/` — the command-line front end: file-system access for backups
  and the configuration file,
  floating-point entropy and crack-time estimates, JSON output.
- `tests/` — executable tests of the library.
