//! Institutional, hardware-bound authentication for peer-to-peer connections.
//!
//! `iroh-hyde-auth` puts a TPM-bound *institutional* identity in front of ordinary protocols
//! **without those protocols needing any awareness of it**: a challenge–response signed by hyde
//! (ML-DSA / FIPS 204, with the signing seed sealed to a TPM).
//!
//! # Two identities
//!
//! * **Transport identity** — the endpoint's ordinary in-memory ephemeral key. Fast handshakes,
//!   free to rotate.
//! * **Institutional identity** — a TPM-bound ML-DSA key. Exchanged over a *separate* auth ALPN
//!   ([`ALPN`]) and bound to the ephemeral transport id, so a stolen on-disk key or a relay cannot
//!   impersonate an institution.
//!
//! The TPM is hyde's `tpm` feature, which this crate's configuration leaves off: it builds hyde's
//! software backend alone. A key is then sealed in software, and with `FallbackPolicy::Deny` no
//! signer is to be had, on a machine with a TPM either.
//!
//! # What is here
//!
//! This crate holds the decisions of the handshake: what is signed, what is sent, when a peer is
//! admitted, and which connections are let through. Connections, streams and tasks belong to the
//! caller, which hands in messages and endpoint ids and carries out what comes back.
//!
//! Acceptor: [`incoming`] gives the hook that gates connections and the protocol that
//! authenticates peers. Initiator: [`outgoing`] gives the hook that asks for authentication before
//! the first dial and the task that keeps track of it. Both at once: [`mutual`].
//!
//! What the crate promises as a whole is stated and proved in [`laws`].

pub mod bytes;
pub mod codec;
pub mod ed25519;
pub mod error;
pub mod hyde;
pub mod incoming;
pub mod laws;
pub mod mutual;
pub mod outgoing;
pub mod peers;
pub mod signer;
pub mod ssh_agent;
pub mod table;
pub mod text;
pub mod trust;
pub mod util;
pub mod wire;

pub use error::Error;
pub use incoming::{incoming, AuthProtocol, IncomingAuthHook};
pub use mutual::{mutual, MutualAuthHook, MutualAuthProtocol, MutualAuthTask};
pub use outgoing::{outgoing, OutgoingAuthHook, OutgoingAuthTask};
pub use signer::{HydeSigner, InstitutionalSigner};
pub use ssh_agent::{SshAgentSigner, SshVerifier};
pub use trust::{HydeVerifier, InstitutionId, InstitutionVerifier, Roster, VerifyError};
pub use wire::{ALPN, MUTUAL_ALPN};

// The hyde knobs that callers need to pick a fallback policy or an algorithm.
pub use hyde_tee::{FallbackPolicy, SigningAlgorithm};
