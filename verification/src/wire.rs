//! On-the-wire protocol for the institutional auth handshake.
//!
//! The handshake runs over its own ALPN ([`ALPN`]) on a *separate* connection
//! from the application protocol. The application protocol (echo, iroh-blobs,
//! iroh-gossip, …) never sees any of this.
//!
//! Flow (one bidirectional stream):
//!
//! ```text
//!   initiator                                  acceptor
//!      |  ClientHello { version }  ───────────────▶ |
//!      | ◀─────  ServerChallenge { nonce, time }    |
//!      |  ClientAuth { vkey, sig, time }  ────────▶ |
//!      | ◀── connection close: 1 (ok) / 403 (deny)  |
//! ```
//!
//! The signed transcript binds the institutional signature to (a) the
//! acceptor's fresh random nonce and (b) the initiator's *ephemeral* endpoint
//! id. Because the QUIC/TLS handshake already proves the peer holds the
//! secret key for that endpoint id, binding to it means a relay or
//! man-in-the-middle cannot present a stolen institutional assertion for a
//! transport session it does not control.

use crate::bytes::{get_be32, put_be32, put_be64, put_bytes};
use crate::codec::{
    decode_assertion, decode_challenge, decode_greeting, decode_proof, decode_version,
    encode_assertion, encode_challenge, encode_greeting, encode_proof, encode_version,
};
use crate::error::{Error, ErrorView};
use postcard::Error as CodecError;
use vstd::prelude::*;

verus! {

/// ALPN for the auth handshake, `iroh-hyde-auth/0`. Mount the auth protocol on this.
pub const ALPN: [u8; 16] = [
    0x69, 0x72, 0x6f, 0x68, 0x2d, 0x68, 0x79, 0x64, 0x65, 0x2d, 0x61, 0x75, 0x74, 0x68,
    0x2f, 0x30,
];

/// Current protocol version.
pub const PROTOCOL_VERSION: u8 = 0;

/// Domain-separation tag mixed into every signed transcript:
/// `iroh-hyde-auth/v0/institutional-challenge`.
pub const DOMAIN: [u8; 41] = [
    0x69, 0x72, 0x6f, 0x68, 0x2d, 0x68, 0x79, 0x64, 0x65, 0x2d, 0x61, 0x75, 0x74, 0x68,
    0x2f, 0x76, 0x30, 0x2f, 0x69, 0x6e, 0x73, 0x74, 0x69, 0x74, 0x75, 0x74, 0x69, 0x6f,
    0x6e, 0x61, 0x6c, 0x2d, 0x63, 0x68, 0x61, 0x6c, 0x6c, 0x65, 0x6e, 0x67, 0x65,
];

/// Length of a random challenge nonce.
pub const NONCE_LEN: usize = 32;

/// Length of an endpoint id (ed25519 public key) in bytes.
pub const ENDPOINT_ID_LEN: usize = 32;

/// Close code sent by the acceptor when authentication succeeds.
pub const CLOSE_ACCEPTED: u32 = 1;

/// Close code sent by the acceptor when authentication fails.
pub const CLOSE_DENIED: u32 = 403;

/// Maximum size of a single length-prefixed wire message.
///
/// ML-DSA-65 verifying keys (~1952 B) and signatures (~3309 B) dominate; 16 KiB
/// leaves generous headroom for larger parameter sets.
pub const MAX_MSG: usize = 16 * 1024;

/// ALPN for the *mutual* auth handshake, `iroh-hyde-auth/mutual/0`. Distinct from [`ALPN`] so a
/// one-directional initiator and a mutual acceptor never mis-parse each other.
pub const MUTUAL_ALPN: [u8; 23] = [
    0x69, 0x72, 0x6f, 0x68, 0x2d, 0x68, 0x79, 0x64, 0x65, 0x2d, 0x61, 0x75, 0x74, 0x68,
    0x2f, 0x6d, 0x75, 0x74, 0x75, 0x61, 0x6c, 0x2f, 0x30,
];

/// Domain-separation tag for mutual transcripts: `iroh-hyde-auth/v0/mutual-challenge`.
pub const DOMAIN_MUTUAL: [u8; 34] = [
    0x69, 0x72, 0x6f, 0x68, 0x2d, 0x68, 0x79, 0x64, 0x65, 0x2d, 0x61, 0x75, 0x74, 0x68,
    0x2f, 0x76, 0x30, 0x2f, 0x6d, 0x75, 0x74, 0x75, 0x61, 0x6c, 0x2d, 0x63, 0x68, 0x61,
    0x6c, 0x6c, 0x65, 0x6e, 0x67, 0x65,
];

/// Role of the side that dialled the auth connection. A role is mixed into each mutual
/// transcript so a signature produced in one role cannot be reflected as the other.
pub const ROLE_INITIATOR: u8 = 1;

/// Role of the side that accepted the auth connection.
pub const ROLE_ACCEPTOR: u8 = 2;

/// A random challenge.
pub type Nonce = [u8; 32];

/// The ephemeral transport identity of an endpoint: its ed25519 public key.
pub type EndpointId = [u8; 32];

/// First message: the initiator greets the acceptor.
#[derive(Debug)]
pub struct ClientHello {
    pub version: u8,
}

/// Second message: the acceptor's fresh challenge.
#[derive(Debug)]
pub struct ServerChallenge {
    pub version: u8,
    pub nonce: Nonce,
    pub server_unix_secs: u64,
}

/// Third message: the initiator's institutional assertion.
#[derive(Debug)]
pub struct ClientAuth {
    /// The institution's publishable verifying key (ML-DSA).
    pub verifying_key: Vec<u8>,
    /// Signature over [`transcript`].
    pub signature: Vec<u8>,
    /// The initiator's asserted timestamp (bound into the transcript).
    pub client_unix_secs: u64,
}

/// Message 1, initiator → acceptor: greet and send the initiator's nonce.
#[derive(Debug)]
pub struct MutualHello {
    pub version: u8,
    pub nonce: Nonce,
}

/// Message 2, acceptor → initiator: the acceptor's nonce *and* its own
/// institutional assertion (bound to the initiator's nonce).
#[derive(Debug)]
pub struct MutualChallenge {
    pub version: u8,
    pub nonce: Nonce,
    pub verifying_key: Vec<u8>,
    pub signature: Vec<u8>,
    pub acceptor_unix_secs: u64,
}

/// Message 3, initiator → acceptor: the initiator's institutional assertion
/// (bound to the acceptor's nonce).
#[derive(Debug)]
pub struct MutualResponse {
    pub verifying_key: Vec<u8>,
    pub signature: Vec<u8>,
    pub initiator_unix_secs: u64,
}

impl View for ClientHello {
    type V = u8;

    /// The version.
    open spec fn view(&self) -> u8 {
        self.version
    }
}

impl View for ServerChallenge {
    type V = (u8, Seq<u8>, u64);

    /// The version, the nonce and the timestamp.
    open spec fn view(&self) -> (u8, Seq<u8>, u64) {
        (self.version, self.nonce@, self.server_unix_secs)
    }
}

impl View for ClientAuth {
    type V = (Seq<u8>, Seq<u8>, u64);

    /// The verifying key, the signature and the timestamp.
    open spec fn view(&self) -> (Seq<u8>, Seq<u8>, u64) {
        (self.verifying_key@, self.signature@, self.client_unix_secs)
    }
}

impl View for MutualHello {
    type V = (u8, Seq<u8>);

    /// The version and the nonce.
    open spec fn view(&self) -> (u8, Seq<u8>) {
        (self.version, self.nonce@)
    }
}

impl View for MutualChallenge {
    type V = (u8, Seq<u8>, Seq<u8>, Seq<u8>, u64);

    /// The version, the nonce, the verifying key, the signature and the timestamp.
    open spec fn view(&self) -> (u8, Seq<u8>, Seq<u8>, Seq<u8>, u64) {
        (
            self.version,
            self.nonce@,
            self.verifying_key@,
            self.signature@,
            self.acceptor_unix_secs,
        )
    }
}

impl View for MutualResponse {
    type V = (Seq<u8>, Seq<u8>, u64);

    /// The verifying key, the signature and the timestamp.
    open spec fn view(&self) -> (Seq<u8>, Seq<u8>, u64) {
        (self.verifying_key@, self.signature@, self.initiator_unix_secs)
    }
}

/// The byte string that the initiator signs: the domain tag, the version, the acceptor's nonce,
/// the initiator's endpoint id and the initiator's timestamp.
pub open spec fn transcript_bytes(nonce: Seq<u8>, initiator_id: Seq<u8>, secs: u64) -> Seq<u8> {
    DOMAIN@ + seq![PROTOCOL_VERSION] + nonce + initiator_id + crate::bytes::be64(secs)
}

/// The byte string that one side of a mutual handshake signs: the domain tag, the version, the
/// signer's role, the peer's nonce, the signer's endpoint id and the signer's timestamp.
pub open spec fn mutual_transcript_bytes(
    role: u8,
    peer_nonce: Seq<u8>,
    signer_id: Seq<u8>,
    time: u64,
) -> Seq<u8> {
    DOMAIN_MUTUAL@ + seq![PROTOCOL_VERSION, role] + peer_nonce + signer_id + crate::bytes::be64(
        time,
    )
}

/// Build the canonical byte string that the initiator signs and the acceptor
/// re-derives and verifies. Both sides MUST construct this identically.
///
/// * `nonce` — the acceptor's challenge.
/// * `initiator_id` — the initiator's ephemeral endpoint id. The acceptor uses
///   the QUIC-authenticated remote id, **not** anything the
///   client claims, which is what binds institution → transport session.
/// * `client_unix_secs` — the initiator's asserted timestamp.
pub fn transcript(nonce: &Nonce, initiator_id: &EndpointId, client_unix_secs: u64) -> (t: Vec<u8>)
    ensures
        t@ == transcript_bytes(nonce@, initiator_id@, client_unix_secs),
{
    let mut t: Vec<u8> = Vec::new();
    put_bytes(&mut t, DOMAIN.as_slice());
    t.push(PROTOCOL_VERSION);
    put_bytes(&mut t, nonce.as_slice());
    put_bytes(&mut t, initiator_id.as_slice());
    put_be64(&mut t, client_unix_secs);
    assert(t@ =~= transcript_bytes(nonce@, initiator_id@, client_unix_secs));
    t
}

/// Build a mutual transcript. The signer asserts: *"institution `vk` operates
/// endpoint `signer_id`, fresh with respect to `peer_nonce`, at `time`, acting
/// as `role`."* The verifier rebuilds it with the peer's role, the nonce it
/// itself generated, and the QUIC-authenticated remote id as `signer_id`.
pub fn mutual_transcript(role: u8, peer_nonce: &Nonce, signer_id: &EndpointId, time: u64) -> (t:
    Vec<u8>)
    ensures
        t@ == mutual_transcript_bytes(role, peer_nonce@, signer_id@, time),
{
    let mut t: Vec<u8> = Vec::new();
    put_bytes(&mut t, DOMAIN_MUTUAL.as_slice());
    t.push(PROTOCOL_VERSION);
    t.push(role);
    put_bytes(&mut t, peer_nonce.as_slice());
    put_bytes(&mut t, signer_id.as_slice());
    put_be64(&mut t, time);
    assert(t@ =~= mutual_transcript_bytes(role, peer_nonce@, signer_id@, time));
    t
}

/// A wire message with its length in front.
pub open spec fn framed(payload: Seq<u8>) -> Seq<u8> {
    crate::bytes::be32(payload.len() as u32) + payload
}

/// Put the length prefix in front of an encoded message.
pub fn frame(payload: &[u8]) -> (framed: Result<Vec<u8>, Error>)
    ensures
        framed is Ok <==> payload@.len() <= u32::MAX,
        framed matches Ok(bytes) ==> bytes@ == self::framed(payload@),
        framed matches Err(error) ==> error@ == ErrorView::MessageTooLarge(payload@.len()),
{
    if payload.len() as u64 > u32::MAX as u64 {
        return Err(Error::MessageTooLarge(payload.len()));
    }
    let mut bytes: Vec<u8> = Vec::new();
    put_be32(&mut bytes, payload.len() as u32);
    put_bytes(&mut bytes, payload);
    assert(bytes@ =~= self::framed(payload@));
    Ok(bytes)
}

/// The length that a message's prefix announces, if it is at most `max`.
pub fn frame_len(prefix: &[u8; 4], max: usize) -> (announced: Result<usize, Error>)
    ensures
        announced is Ok <==> crate::bytes::be32_value(prefix@) <= max,
        announced matches Ok(len) ==> len == crate::bytes::be32_value(prefix@),
        announced matches Err(error) ==> error@ == ErrorView::MessageTooLarge(
            crate::bytes::be32_value(prefix@) as nat,
        ),
{
    let len: usize = get_be32(prefix.as_slice()) as usize;
    if len > max {
        return Err(Error::MessageTooLarge(len));
    }
    Ok(len)
}

/// A message of the handshake, with its encoding.
pub trait Message: View + Sized {
    /// The bytes of a message with this content.
    spec fn encoding(content: Self::V) -> Seq<u8>;

    /// The content of the message that the bytes hold, or what was wrong with them.
    spec fn decoding(bytes: Seq<u8>) -> Result<Self::V, CodecError>;

    /// Encodes the message. What is encoded can be decoded again.
    fn encode(&self) -> (encoded: Result<Vec<u8>, CodecError>)
        ensures
            encoded is Ok,
            encoded matches Ok(bytes) ==> bytes@ == Self::encoding(self@),
            Self::decoding(Self::encoding(self@)) matches Ok(content) && content == self@,
    ;

    /// Decodes a message.
    fn decode(bytes: &[u8]) -> (decoded: Result<Self, CodecError>)
        ensures
            (match decoded {
                Ok(message) => Ok(message@),
                Err(error) => Err(error),
            }) == Self::decoding(bytes@),
    ;
}

impl Message for ClientHello {
    open spec fn encoding(content: u8) -> Seq<u8> {
        seq![content]
    }

    open spec fn decoding(bytes: Seq<u8>) -> Result<u8, CodecError> {
        if bytes.len() >= 1 {
            Ok(bytes[0])
        } else {
            Err(CodecError::DeserializeUnexpectedEnd)
        }
    }

    fn encode(&self) -> Result<Vec<u8>, CodecError> {
        encode_version(self.version)
    }

    fn decode(bytes: &[u8]) -> Result<Self, CodecError> {
        match decode_version(bytes) {
            Ok(version) => Ok(ClientHello { version }),
            Err(error) => Err(error),
        }
    }
}

impl Message for ServerChallenge {
    open spec fn encoding(content: (u8, Seq<u8>, u64)) -> Seq<u8> {
        seq![content.0] + content.1 + crate::codec::varint(content.2 as nat)
    }

    open spec fn decoding(bytes: Seq<u8>) -> Result<(u8, Seq<u8>, u64), CodecError> {
        crate::codec::decoded_challenge(bytes)
    }

    fn encode(&self) -> Result<Vec<u8>, CodecError> {
        proof {
            crate::codec::challenge_round_trip(self.version, self.nonce, self.server_unix_secs);
        }
        encode_challenge(self.version, &self.nonce, self.server_unix_secs)
    }

    fn decode(bytes: &[u8]) -> Result<Self, CodecError> {
        match decode_challenge(bytes) {
            Ok((version, nonce, server_unix_secs)) => Ok(
                ServerChallenge { version, nonce, server_unix_secs },
            ),
            Err(error) => Err(error),
        }
    }
}

impl Message for ClientAuth {
    open spec fn encoding(content: (Seq<u8>, Seq<u8>, u64)) -> Seq<u8> {
        crate::codec::byte_string(content.0) + crate::codec::byte_string(content.1)
            + crate::codec::varint(content.2 as nat)
    }

    open spec fn decoding(bytes: Seq<u8>) -> Result<(Seq<u8>, Seq<u8>, u64), CodecError> {
        crate::codec::decoded_assertion(bytes)
    }

    fn encode(&self) -> Result<Vec<u8>, CodecError> {
        proof {
            assert(self.verifying_key.len() <= usize::MAX && self.signature.len() <= usize::MAX);
            crate::codec::assertion_round_trip(
                self.verifying_key@,
                self.signature@,
                self.client_unix_secs,
            );
        }
        encode_assertion(
            self.verifying_key.as_slice(),
            self.signature.as_slice(),
            self.client_unix_secs,
        )
    }

    fn decode(bytes: &[u8]) -> Result<Self, CodecError> {
        match decode_assertion(bytes) {
            Ok((verifying_key, signature, client_unix_secs)) => Ok(
                ClientAuth { verifying_key, signature, client_unix_secs },
            ),
            Err(error) => Err(error),
        }
    }
}

impl Message for MutualHello {
    open spec fn encoding(content: (u8, Seq<u8>)) -> Seq<u8> {
        seq![content.0] + content.1
    }

    open spec fn decoding(bytes: Seq<u8>) -> Result<(u8, Seq<u8>), CodecError> {
        if bytes.len() >= 33 {
            Ok((bytes[0], bytes.subrange(1, 33)))
        } else {
            Err(CodecError::DeserializeUnexpectedEnd)
        }
    }

    fn encode(&self) -> Result<Vec<u8>, CodecError> {
        assert((seq![self.version] + self.nonce@).subrange(1, 33) =~= self.nonce@);
        encode_greeting(self.version, &self.nonce)
    }

    fn decode(bytes: &[u8]) -> Result<Self, CodecError> {
        match decode_greeting(bytes) {
            Ok((version, nonce)) => Ok(MutualHello { version, nonce }),
            Err(error) => Err(error),
        }
    }
}

impl Message for MutualChallenge {
    open spec fn encoding(content: (u8, Seq<u8>, Seq<u8>, Seq<u8>, u64)) -> Seq<u8> {
        seq![content.0] + content.1 + crate::codec::byte_string(content.2)
            + crate::codec::byte_string(content.3) + crate::codec::varint(content.4 as nat)
    }

    open spec fn decoding(bytes: Seq<u8>) -> Result<
        (u8, Seq<u8>, Seq<u8>, Seq<u8>, u64),
        CodecError,
    > {
        crate::codec::decoded_proof(bytes)
    }

    fn encode(&self) -> Result<Vec<u8>, CodecError> {
        proof {
            assert(self.verifying_key.len() <= usize::MAX && self.signature.len() <= usize::MAX);
            crate::codec::proof_round_trip(
                self.version,
                self.nonce,
                self.verifying_key@,
                self.signature@,
                self.acceptor_unix_secs,
            );
        }
        encode_proof(
            self.version,
            &self.nonce,
            self.verifying_key.as_slice(),
            self.signature.as_slice(),
            self.acceptor_unix_secs,
        )
    }

    fn decode(bytes: &[u8]) -> Result<Self, CodecError> {
        match decode_proof(bytes) {
            Ok((version, nonce, verifying_key, signature, acceptor_unix_secs)) => Ok(
                MutualChallenge { version, nonce, verifying_key, signature, acceptor_unix_secs },
            ),
            Err(error) => Err(error),
        }
    }
}

impl Message for MutualResponse {
    open spec fn encoding(content: (Seq<u8>, Seq<u8>, u64)) -> Seq<u8> {
        crate::codec::byte_string(content.0) + crate::codec::byte_string(content.1)
            + crate::codec::varint(content.2 as nat)
    }

    open spec fn decoding(bytes: Seq<u8>) -> Result<(Seq<u8>, Seq<u8>, u64), CodecError> {
        crate::codec::decoded_assertion(bytes)
    }

    fn encode(&self) -> Result<Vec<u8>, CodecError> {
        proof {
            assert(self.verifying_key.len() <= usize::MAX && self.signature.len() <= usize::MAX);
            crate::codec::assertion_round_trip(
                self.verifying_key@,
                self.signature@,
                self.initiator_unix_secs,
            );
        }
        encode_assertion(
            self.verifying_key.as_slice(),
            self.signature.as_slice(),
            self.initiator_unix_secs,
        )
    }

    fn decode(bytes: &[u8]) -> Result<Self, CodecError> {
        match decode_assertion(bytes) {
            Ok((verifying_key, signature, initiator_unix_secs)) => Ok(
                MutualResponse { verifying_key, signature, initiator_unix_secs },
            ),
            Err(error) => Err(error),
        }
    }
}

/// Write a length-prefixed, postcard-encoded message: the bytes to send. What they hold after
/// the prefix reads back as the message.
pub fn write_msg<M: Message>(msg: &M) -> (written: Result<Vec<u8>, Error>)
    ensures
        written is Ok <==> M::encoding(msg@).len() <= u32::MAX,
        written matches Ok(bytes) ==> bytes@ == framed(M::encoding(msg@)),
        written matches Err(error) ==> error@ == ErrorView::MessageTooLarge(
            M::encoding(msg@).len(),
        ),
        M::decoding(M::encoding(msg@)) matches Ok(content) && content == msg@,
{
    match msg.encode() {
        Ok(bytes) => frame(bytes.as_slice()),
        Err(error) => Err(Error::Codec(error)),
    }
}

/// What the codec's answer means for the handshake: the message, or a codec error.
pub open spec fn received<T>(read: Result<T, CodecError>) -> Result<T, ErrorView> {
    match read {
        Ok(content) => Ok(content),
        Err(error) => Err(ErrorView::Codec(error)),
    }
}

/// Turns the codec's answer into the handshake's.
pub fn receive<M: View>(read: Result<M, CodecError>) -> (result: Result<M, Error>)
    ensures
        crate::error::outcome(result) == received(
            match read {
                Ok(message) => Ok(message@),
                Err(error) => Err(error),
            },
        ),
{
    match read {
        Ok(message) => Ok(message),
        Err(error) => Err(Error::Codec(error)),
    }
}

/// Read a postcard-encoded message off the bytes that followed its length prefix.
pub fn read_msg<M: Message>(bytes: &[u8]) -> (read: Result<M, Error>)
    ensures
        crate::error::outcome(read) == received(M::decoding(bytes@)),
{
    receive(M::decode(bytes))
}

} // verus!
