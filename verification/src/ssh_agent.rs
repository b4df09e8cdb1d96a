//! A second institutional backend, backed by a running `ssh-agent`.
//!
//! This exists to validate that [`InstitutionalSigner`] / [`InstitutionVerifier`]
//! are genuinely backend-agnostic: the wire protocol, hooks, roster, and
//! transcript binding are all unchanged — only the signature scheme differs
//! (ed25519 via the agent instead of TPM-bound ML-DSA via hyde).
//!
//! The agent holds the private key; signing is a request over `SSH_AUTH_SOCK`.
//! The institutional "verifying key" is the raw 32-byte ed25519 public key, and
//! the [`Roster`] maps those to labels exactly as with the hyde backend. This
//! module writes the requests and reads the replies; carrying them is left to
//! the caller.
//!
//! [`InstitutionalSigner`]: crate::InstitutionalSigner

use crate::bytes::{bytes_eq, get_be32, put_be32, put_bytes};
use crate::ed25519::{check_key, verify_strict};
use crate::error::{Error, ErrorView};
use crate::trust::{
    InstitutionId, InstitutionVerifier, Roster, Verdict, VerifyError, VerifyErrorView,
};
use std::path::PathBuf;
use vstd::prelude::*;
use vstd::slice::{slice_subrange, slice_to_vec};

verus! {

/// `std::path::PathBuf`: where the agent's socket is. Only carried.
#[verifier::external_type_specification]
#[verifier::external_body]
pub struct ExPathBuf(PathBuf);

/// `std::path::PathBuf`'s `Clone`: the copy is the same path.
pub assume_specification [<PathBuf as Clone>::clone](path: &PathBuf) -> (copy: PathBuf)
    ensures
        copy == *path,
;

/// ssh-agent message number (OpenSSH PROTOCOL.agent): asks for the list of keys.
pub const REQUEST_IDENTITIES: u8 = 11;

/// ssh-agent message number: the list of keys.
pub const IDENTITIES_ANSWER: u8 = 12;

/// ssh-agent message number: asks for a signature.
pub const SIGN_REQUEST: u8 = 13;

/// ssh-agent message number: a signature.
pub const SIGN_RESPONSE: u8 = 14;

/// The name of ed25519 keys and signatures, `ssh-ed25519`.
pub const ED25519_KEY_TYPE: [u8; 11] = [
    0x73, 0x73, 0x68, 0x2d, 0x65, 0x64, 0x32, 0x35, 0x35, 0x31, 0x39,
];

/// The longest message that is taken from an agent.
pub const MAX_AGENT_MSG: usize = 0x10_0000;

/// An SSH string: the length in four bytes (modulo 2^32), then the bytes.
pub open spec fn ssh_string(s: Seq<u8>) -> Seq<u8> {
    crate::bytes::be32((s.len() % 0x1_0000_0000) as u32) + s
}

/// Reads an SSH string off the front of `rest`: the string and what follows it, or `None` if
/// `rest` ends too early.
pub open spec fn read_string(rest: Seq<u8>) -> Option<(Seq<u8>, Seq<u8>)> {
    if rest.len() < 4 {
        None
    } else {
        let len = crate::bytes::be32_value(rest.take(4));
        if rest.len() < 4 + len {
            None
        } else {
            Some((rest.subrange(4, 4 + len), rest.skip(4 + len)))
        }
    }
}

/// The error of a reply that ends too early.
pub open spec fn truncated() -> ErrorView {
    ErrorView::Signer("ssh-agent: truncated message"@)
}

fn truncated_error() -> (error: Error)
    ensures
        error@ == truncated(),
{
    Error::Signer("ssh-agent: truncated message".to_owned())
}

/// Appends an SSH string.
pub fn put_string(buf: &mut Vec<u8>, s: &[u8])
    ensures
        final(buf)@ == old(buf)@ + ssh_string(s@),
{
    put_be32(buf, (s.len() as u64 % 0x1_0000_0000) as u32);
    put_bytes(buf, s);
    assert(buf@ =~= old(buf)@ + ssh_string(s@));
}

/// Minimal reader for SSH wire encoding (big-endian length-prefixed fields).
#[derive(Debug)]
pub struct Reader<'a> {
    buf: &'a [u8],
    pos: usize,
}

impl<'a> Reader<'a> {
    #[verifier::type_invariant]
    spec fn inv(self) -> bool {
        self.pos <= self.buf@.len()
    }

    /// What is still to be read.
    pub closed spec fn rest(&self) -> Seq<u8> {
        self.buf@.skip(self.pos as int)
    }

    pub fn new(buf: &'a [u8]) -> (reader: Self)
        ensures
            reader.rest() == buf@,
    {
        let reader = Reader { buf, pos: 0 };
        assert(reader.rest() =~= buf@);
        reader
    }

    /// Reads `n` bytes.
    pub fn take(&mut self, n: usize) -> (taken: Result<&'a [u8], Error>)
        ensures
            taken is Ok <==> n <= old(self).rest().len(),
            taken matches Ok(bytes) ==> bytes@ == old(self).rest().take(n as int)
                && final(self).rest() == old(self).rest().skip(n as int),
            taken matches Err(error) ==> error@ == truncated() && final(self).rest() == old(
                self,
            ).rest(),
    {
        proof {
            use_type_invariant(&*self);
        }
        if n > self.buf.len() - self.pos {
            return Err(truncated_error());
        }
        let end: usize = self.pos + n;
        let bytes = slice_subrange(self.buf, self.pos, end);
        self.pos = end;
        assert(bytes@ =~= old(self).rest().take(n as int));
        assert(self.rest() =~= old(self).rest().skip(n as int));
        Ok(bytes)
    }

    /// Reads one byte.
    pub fn u8(&mut self) -> (read: Result<u8, Error>)
        ensures
            read is Ok <==> old(self).rest().len() >= 1,
            read matches Ok(byte) ==> byte == old(self).rest()[0] && final(self).rest() == old(
                self,
            ).rest().skip(1),
            read matches Err(error) ==> error@ == truncated() && final(self).rest() == old(
                self,
            ).rest(),
    {
        match self.take(1) {
            Ok(bytes) => Ok(bytes[0]),
            Err(error) => Err(error),
        }
    }

    /// Reads a number of four bytes.
    pub fn u32(&mut self) -> (read: Result<u32, Error>)
        ensures
            read is Ok <==> old(self).rest().len() >= 4,
            read matches Ok(x) ==> x == crate::bytes::be32_value(old(self).rest().take(4))
                && final(self).rest() == old(self).rest().skip(4),
            read matches Err(error) ==> error@ == truncated() && final(self).rest() == old(
                self,
            ).rest(),
    {
        match self.take(4) {
            Ok(bytes) => Ok(get_be32(bytes)),
            Err(error) => Err(error),
        }
    }

    /// Reads an SSH string. A length that announces too much has been read even so.
    pub fn string(&mut self) -> (read: Result<&'a [u8], Error>)
        ensures
            read is Ok <==> read_string(old(self).rest()) is Some,
            read matches Ok(s) ==> read_string(old(self).rest()) == Some(
                (s@, final(self).rest()),
            ),
            read matches Err(error) ==> error@ == truncated() && final(self).rest() == (if old(
                self,
            ).rest().len() < 4 {
                old(self).rest()
            } else {
                old(self).rest().skip(4)
            }),
    {
        let len: usize = match self.u32() {
            Ok(len) => len as usize,
            Err(error) => return Err(error),
        };
        let s = self.take(len);
        proof {
            let rest = old(self).rest();
            if s is Ok {
                assert(rest.skip(4).take(len as int) =~= rest.subrange(4, 4 + len));
                assert(rest.skip(4).skip(len as int) =~= rest.skip(4 + len));
            }
        }
        s
    }
}

/// A slice of 32 bytes as an array.
fn array_32(s: &[u8]) -> (array: Option<[u8; 32]>)
    ensures
        array is Some <==> s@.len() == 32,
        array matches Some(a) ==> a@ == s@,
{
    if s.len() != 32 {
        return None;
    }
    let mut a: [u8; 32] = [0u8; 32];
    let mut i: usize = 0;
    while i < 32
        invariant
            i <= 32,
            s@.len() == 32,
            forall|j: int| 0 <= j < i ==> a@[j] == s@[j],
        decreases 32 - i,
    {
        a[i] = s[i];
        i = i + 1;
    }
    assert(a@ =~= s@);
    Some(a)
}

/// A slice of 64 bytes as an array.
fn array_64(s: &[u8]) -> (array: Option<[u8; 64]>)
    ensures
        array is Some <==> s@.len() == 64,
        array matches Some(a) ==> a@ == s@,
{
    if s.len() != 64 {
        return None;
    }
    let mut a: [u8; 64] = [0u8; 64];
    let mut i: usize = 0;
    while i < 64
        invariant
            i <= 64,
            s@.len() == 64,
            forall|j: int| 0 <= j < i ==> a@[j] == s@[j],
        decreases 64 - i,
    {
        a[i] = s[i];
        i = i + 1;
    }
    assert(a@ =~= s@);
    Some(a)
}

/// The raw public key in an ed25519 key blob, `string "ssh-ed25519" || string pubkey(32)`; `None`
/// for any other blob.
pub open spec fn key_of(key_blob: Seq<u8>) -> Option<Seq<u8>> {
    match read_string(key_blob) {
        Some((key_type, rest)) if key_type == ED25519_KEY_TYPE@ => match read_string(rest) {
            Some((key, _)) if key.len() == 32 => Some(key),
            _ => None,
        },
        _ => None,
    }
}

/// `string "ssh-ed25519" || string pubkey(32)` → raw 32-byte public key.
pub fn parse_ed25519_public_key(key_blob: &[u8]) -> (key: Option<[u8; 32]>)
    ensures
        key is Some <==> key_of(key_blob@) is Some,
        key matches Some(k) ==> key_of(key_blob@) == Some(k@),
{
    let mut r = Reader::new(key_blob);
    let key_type = match r.string() {
        Ok(key_type) => key_type,
        Err(_) => return None,
    };
    if !bytes_eq(key_type, ED25519_KEY_TYPE.as_slice()) {
        return None;
    }
    match r.string() {
        Ok(key) => array_32(key),
        Err(_) => None,
    }
}

/// Whether a public key is the one that is wanted; any is if none is named.
pub open spec fn wanted(want: Option<Seq<u8>>, key: Seq<u8>) -> bool {
    want matches Some(w) ==> w == key
}

/// The first of `count` listed identities (a key blob and a comment each) that is an ed25519 key
/// and wanted: its blob and its raw public key. It is an error if the list ends too early, or
/// holds none.
pub open spec fn first_identity(rest: Seq<u8>, count: nat, want: Option<Seq<u8>>) -> Result<
    (Seq<u8>, Seq<u8>),
    ErrorView,
>
    decreases count,
{
    if count == 0 {
        Err(ErrorView::Signer("ssh-agent: no matching ed25519 identity loaded"@))
    } else {
        match read_string(rest) {
            None => Err(truncated()),
            Some((blob, after_blob)) => match read_string(after_blob) {
                None => Err(truncated()),
                Some((_, next)) => match key_of(blob) {
                    Some(key) if wanted(want, key) => Ok((blob, key)),
                    _ => first_identity(next, (count - 1) as nat, want),
                },
            },
        }
    }
}

/// The identity that is selected from an agent's reply to the request for its identities.
pub open spec fn selected_identity(reply: Seq<u8>, want: Option<Seq<u8>>) -> Result<
    (Seq<u8>, Seq<u8>),
    ErrorView,
> {
    if reply.len() < 1 {
        Err(truncated())
    } else if reply[0] != IDENTITIES_ANSWER {
        Err(ErrorView::Signer("ssh-agent: unexpected identities reply"@))
    } else if reply.len() < 5 {
        Err(truncated())
    } else {
        first_identity(
            reply.skip(5),
            crate::bytes::be32_value(reply.subrange(1, 5)) as nat,
            want,
        )
    }
}

/// The view of a key that may be wanted.
pub open spec fn want_view(want: Option<[u8; 32]>) -> Option<Seq<u8>> {
    match want {
        Some(key) => Some(key@),
        None => None,
    }
}

/// A signer that signs via a running `ssh-agent`.
///
/// The selected key must be an ed25519 key already loaded in the agent.
#[derive(Debug)]
pub struct SshAgentSigner {
    sock: PathBuf,
    /// The full ssh key blob (`string "ssh-ed25519" || string pubkey`).
    key_blob: Vec<u8>,
    /// The raw 32-byte ed25519 public key — the institutional verifying key.
    public_key: [u8; 32],
}

impl View for SshAgentSigner {
    type V = (Seq<u8>, Seq<u8>);

    /// The key blob and the raw public key.
    closed spec fn view(&self) -> (Seq<u8>, Seq<u8>) {
        (self.key_blob@, self.public_key@)
    }
}

impl Clone for SshAgentSigner {
    fn clone(&self) -> (copy: Self)
        ensures
            copy@ == self@,
            copy.socket() == self.socket(),
    {
        SshAgentSigner {
            sock: self.sock.clone(),
            key_blob: self.key_blob.clone(),
            public_key: self.public_key,
        }
    }
}

/// The request for the list of an agent's identities.
pub fn identities_request() -> (request: Vec<u8>)
    ensures
        request@ == seq![REQUEST_IDENTITIES],
{
    let mut request: Vec<u8> = Vec::new();
    request.push(REQUEST_IDENTITIES);
    assert(request@ =~= seq![REQUEST_IDENTITIES]);
    request
}

/// Whether two keys of 32 bytes agree, where one may be missing: then any will do.
fn is_wanted(want: &Option<[u8; 32]>, key: &[u8; 32]) -> (ok: bool)
    ensures
        ok == wanted(want_view(*want), key@),
{
    match want {
        Some(w) => bytes_eq(w.as_slice(), key.as_slice()),
        None => true,
    }
}

impl SshAgentSigner {
    /// The socket of the agent.
    pub closed spec fn socket(&self) -> PathBuf {
        self.sock
    }

    /// Sets up a signer for the agent at `sock`, from its reply to [`identities_request`]. If
    /// `want_public_key` is given, select that exact ed25519 key; otherwise use the first ed25519
    /// key the agent lists.
    pub fn connect(sock: PathBuf, reply: &[u8], want_public_key: Option<[u8; 32]>) -> (signer:
        Result<Self, Error>)
        ensures
            crate::error::outcome(signer) == selected_identity(
                reply@,
                want_view(want_public_key),
            ),
            signer matches Ok(s) ==> s.socket() == sock,
    {
        let ghost want = want_view(want_public_key);
        let mut r = Reader::new(reply);
        let kind: u8 = match r.u8() {
            Ok(kind) => kind,
            Err(error) => return Err(error),
        };
        if kind != IDENTITIES_ANSWER {
            return Err(Error::Signer("ssh-agent: unexpected identities reply".to_owned()));
        }
        let count: u32 = match r.u32() {
            Ok(count) => count,
            Err(error) => return Err(error),
        };
        let mut left: u32 = count;
        proof {
            assert(reply@.skip(1).take(4) =~= reply@.subrange(1, 5));
            assert(reply@.skip(1).skip(4) =~= reply@.skip(5));
        }
        while left > 0
            invariant
                want == want_view(want_public_key),
                first_identity(r.rest(), left as nat, want) == selected_identity(reply@, want),
            decreases left,
        {
            let key_blob = match r.string() {
                Ok(key_blob) => key_blob,
                Err(error) => return Err(error),
            };
            match r.string() {
                Ok(_comment) => {},
                Err(error) => return Err(error),
            }
            if let Some(key) = parse_ed25519_public_key(key_blob) {
                if is_wanted(&want_public_key, &key) {
                    return Ok(
                        SshAgentSigner { sock, key_blob: slice_to_vec(key_blob), public_key: key },
                    );
                }
            }
            left = left - 1;
        }
        Err(Error::Signer("ssh-agent: no matching ed25519 identity loaded".to_owned()))
    }

    /// The socket of the agent.
    pub fn sock(&self) -> (sock: &PathBuf)
        ensures
            *sock == self.socket(),
    {
        &self.sock
    }

    /// The raw public key, the institution's verifying key.
    pub fn verifying_key(&self) -> (key: Vec<u8>)
        ensures
            key@ == self@.1,
    {
        slice_to_vec(self.public_key.as_slice())
    }

    /// The request to sign `message` with the selected key.
    pub fn sign_request(&self, message: &[u8]) -> (request: Vec<u8>)
        ensures
            request@ == sign_request_bytes(self@.0, message@),
    {
        let mut request: Vec<u8> = Vec::new();
        request.push(SIGN_REQUEST);
        put_string(&mut request, self.key_blob.as_slice());
        put_string(&mut request, message);
        // Flags: 0 for ed25519.
        put_be32(&mut request, 0);
        assert(request@ =~= sign_request_bytes(self@.0, message@));
        request
    }

    /// The signature in the agent's reply to [`Self::sign_request`].
    pub fn read_signature(&self, reply: &[u8]) -> (signature: Result<Vec<u8>, Error>)
        ensures
            crate::error::outcome(signature) == signature_in(reply@),
    {
        let mut r = Reader::new(reply);
        let kind: u8 = match r.u8() {
            Ok(kind) => kind,
            Err(error) => return Err(error),
        };
        if kind != SIGN_RESPONSE {
            return Err(Error::Signer("ssh-agent: signing was refused".to_owned()));
        }
        let sig_blob = match r.string() {
            Ok(sig_blob) => sig_blob,
            Err(error) => return Err(error),
        };
        let mut sr = Reader::new(sig_blob);
        let sig_type = match sr.string() {
            Ok(sig_type) => sig_type,
            Err(error) => return Err(error),
        };
        if !bytes_eq(sig_type, ED25519_KEY_TYPE.as_slice()) {
            return Err(Error::Signer("ssh-agent: non-ed25519 signature".to_owned()));
        }
        match sr.string() {
            Ok(signature) => Ok(slice_to_vec(signature)),
            Err(error) => Err(error),
        }
    }
}

/// The request to sign: the message number, the key blob, the message and no flags.
pub open spec fn sign_request_bytes(key_blob: Seq<u8>, message: Seq<u8>) -> Seq<u8> {
    seq![SIGN_REQUEST] + ssh_string(key_blob) + ssh_string(message) + crate::bytes::be32(0)
}

/// The raw signature in a reply to a request to sign,
/// `signature := string( string "ssh-ed25519" || string raw_sig )`.
pub open spec fn signature_in(reply: Seq<u8>) -> Result<Seq<u8>, ErrorView> {
    if reply.len() < 1 {
        Err(truncated())
    } else if reply[0] != SIGN_RESPONSE {
        Err(ErrorView::Signer("ssh-agent: signing was refused"@))
    } else {
        match read_string(reply.skip(1)) {
            None => Err(truncated()),
            Some((blob, _)) => match read_string(blob) {
                None => Err(truncated()),
                Some((kind, rest)) => if kind != ED25519_KEY_TYPE@ {
                    Err(ErrorView::Signer("ssh-agent: non-ed25519 signature"@))
                } else {
                    match read_string(rest) {
                        None => Err(truncated()),
                        Some((signature, _)) => Ok(signature),
                    }
                },
            },
        }
    }
}

/// Put the length prefix in front of a message to the agent.
pub fn agent_frame(payload: &[u8]) -> (framed: Result<Vec<u8>, Error>)
    ensures
        framed is Ok <==> payload@.len() <= u32::MAX,
        framed matches Ok(bytes) ==> bytes@ == ssh_string(payload@),
        framed matches Err(error) ==> error@ == ErrorView::Signer("agent msg too large"@),
{
    if payload.len() as u64 > u32::MAX as u64 {
        return Err(Error::Signer("agent msg too large".to_owned()));
    }
    let mut bytes: Vec<u8> = Vec::new();
    put_string(&mut bytes, payload);
    assert(bytes@ =~= ssh_string(payload@));
    Ok(bytes)
}

/// The length that the prefix of a message from the agent announces.
pub fn agent_frame_len(prefix: &[u8; 4]) -> (announced: Result<usize, Error>)
    ensures
        announced is Ok <==> 0 < crate::bytes::be32_value(prefix@) <= MAX_AGENT_MSG,
        announced matches Ok(len) ==> len == crate::bytes::be32_value(prefix@),
        announced matches Err(error) ==> error@ == ErrorView::Signer(
            "ssh-agent: bad message length"@,
        ),
{
    let n: usize = get_be32(prefix.as_slice()) as usize;
    if n == 0 || n > MAX_AGENT_MSG {
        return Err(Error::Signer("ssh-agent: bad message length".to_owned()));
    }
    Ok(n)
}

/// An [`InstitutionVerifier`] for ed25519 institutional keys (the [`SshAgentSigner`]
/// counterpart). Reuses [`Roster`] — only the signature scheme differs.
#[derive(Debug)]
pub struct SshVerifier {
    roster: Roster,
}

/// The answer of an [`SshVerifier`] with this roster: an unknown key is untrusted, whatever the
/// signature; a known key has to be an ed25519 public key, and is good for its label exactly if
/// the signature verifies under it.
pub open spec fn ssh_verdict(
    roster: Map<Seq<u8>, Seq<char>>,
    key: Seq<u8>,
    message: Seq<u8>,
    signature: Seq<u8>,
) -> Verdict {
    if !roster.contains_key(key) {
        Err(VerifyErrorView::UntrustedKey)
    } else if key.len() != 32 {
        Err(VerifyErrorView::Crypto("ed25519 key must be 32 bytes"@))
    } else if !crate::ed25519::ed25519_decodes(key) {
        Err(VerifyErrorView::Crypto("signature error"@))
    } else if signature.len() != 64 || !crate::ed25519::ed25519_verifies(key, message, signature) {
        Err(VerifyErrorView::BadSignature)
    } else {
        Ok(roster[key])
    }
}

impl SshVerifier {
    /// The trusted keys and their labels.
    pub closed spec fn roster(&self) -> Map<Seq<u8>, Seq<char>> {
        self.roster@
    }

    /// Verify against the given roster of raw 32-byte ed25519 public keys.
    pub fn new(roster: Roster) -> (made: Self)
        ensures
            made.roster() == roster@,
    {
        SshVerifier { roster }
    }
}

impl Clone for SshVerifier {
    fn clone(&self) -> (copy: Self)
        ensures
            copy.roster() == self.roster(),
    {
        SshVerifier { roster: self.roster.clone() }
    }
}

impl InstitutionVerifier for SshVerifier {
    /// The one answer of [`ssh_verdict`].
    open spec fn may_answer(
        &self,
        key: Seq<u8>,
        message: Seq<u8>,
        signature: Seq<u8>,
        answer: Verdict,
    ) -> bool {
        answer == ssh_verdict(self.roster(), key, message, signature)
    }

    fn verify(&self, verifying_key: &[u8], message: &[u8], signature: &[u8]) -> Result<
        InstitutionId,
        VerifyError,
    > {
        if !self.roster.contains(verifying_key) {
            return Err(VerifyError::UntrustedKey);
        }
        let key = match array_32(verifying_key) {
            Some(key) => key,
            None => return Err(VerifyError::Crypto("ed25519 key must be 32 bytes".to_owned())),
        };
        let checked = match check_key(&key) {
            Err(text) => Err(text),
            Ok(_) => match array_64(signature) {
                Some(sig) => Ok(verify_strict(&key, message, &sig)),
                None => Ok(false),
            },
        };
        self.roster.conclude(verifying_key, checked)
    }
}

} // verus!
