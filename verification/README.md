# iroh-hyde-auth

Institutional, **hardware-bound** authentication for iroh connections, with its decisions
verified by Verus: a TPM-backed institutional identity in front of any iroh protocol, without
that protocol knowing anything about it. (See [Backends](#backends) for what the configuration
in `Cargo.toml` builds.)

Two identities are kept separate:

| | Transport identity | Institutional identity |
|---|---|---|
| Key | ephemeral in-memory key | TPM-bound ML-DSA (via hyde) |
| Speed | fast handshake, free to rotate | ~10–100 ms signature |
| Exchanged on | every connection | the auth ALPN, once per peer |

The institutional signature is bound to the acceptor's fresh nonce and to the *ephemeral endpoint
id* of the session. The QUIC/TLS handshake already proves that the peer holds the secret key for
that endpoint id, so a relay or man-in-the-middle cannot reuse a captured assertion for a session
it does not control.

```text
  initiator                                  acceptor
     |  ClientHello { version }  ───────────────▶ |
     | ◀─────  ServerChallenge { nonce, time }    |
     |  ClientAuth { vkey, sig, time }  ────────▶ |
     | ◀── connection close: 1 (ok) / 403 (deny)  |
```

In the mutual handshake both sides prove themselves and verify the other in one exchange, each in
a role of its own.

## Layout

- `src/` is the verified library: transcripts, messages and frames (`wire`, `codec`, `bytes`), who
  is trusted (`trust`), who signs (`signer`, `ssh_agent`), the acceptor's, the initiator's and the
  mutual handshake (`incoming`, `outgoing`, `mutual`), the peers that have authenticated (`peers`,
  `table`), and what the library promises as a whole (`laws`).
- `app/` is the plumbing around it: iroh endpoints and streams, tokio tasks, locks, and the socket
  of an ssh-agent.
- `tests/` runs the library with the real outside crates.

## What is taken on trust

`hyde`, `ed25519` and `codec` hold the calls into hyde, ed25519-dalek and postcard, each with the
contract that is believed of it; `util` reads the clock and draws nonces, and nothing is claimed
of which time or nonce that gives. That a signature cannot be forged is an assumption about the algorithms; it appears in the
laws only as an explicit premise.

## Backends

- hyde: ML-DSA keys sealed by a TEE. With `FallbackPolicy::Deny` a missing TPM is an error, never a
  silent downgrade; `FallbackPolicy::Software` is for development and tests. `Cargo.toml` turns on
  hyde's `software` feature alone, so as it is configured the crate has no TPM backend:
  `HydeSigner::generate(FallbackPolicy::Deny)` fails on every machine, one with a TPM included. A
  TPM-bound identity needs hyde's `tpm` feature and the TSS system library; the contract of
  `hyde::auto_detect` then has to be looked at again, since the TPM can fail to open.
- ssh-agent: ed25519 keys held by a running agent.
