//! Acceptor side: only admit application connections from peers that have
//! completed the institutional handshake.

use crate::bytes::{ascii_bytes, bytes_eq};
use crate::error::{Error, ErrorView};
use crate::peers::RemoteSet;
use crate::trust::{InstitutionId, InstitutionVerifier, Verdict, VerifyError};
use crate::util::{draw_nonce, is_fresh, unix_secs};
use crate::wire::{
    transcript, ClientAuth, ClientHello, EndpointId, Nonce, ServerChallenge, ALPN, CLOSE_ACCEPTED,
    CLOSE_DENIED, PROTOCOL_VERSION,
};
use std::sync::Arc;
use std::time::SystemTime;
use vstd::prelude::*;

verus! {

/// Default tolerance (seconds) for the initiator's asserted timestamp.
pub const DEFAULT_MAX_SKEW_SECS: u64 = 300;

/// Build the acceptor-side hook and the auth protocol handler.
///
/// The hook keeps the remotes that have authenticated; the protocol puts them there.
pub fn incoming<V: InstitutionVerifier>(verifier: V) -> (pair: (IncomingAuthHook, AuthProtocol<V>))
    ensures
        pair.0.allowed() == Set::<Seq<u8>>::empty(),
        pair.1.judge() == verifier,
        pair.1.max_skew() == Some(DEFAULT_MAX_SKEW_SECS),
{
    let hook = IncomingAuthHook { allowed_remotes: RemoteSet::new() };
    let protocol = AuthProtocol {
        verifier: Arc::new(verifier),
        max_skew_secs: Some(DEFAULT_MAX_SKEW_SECS),
    };
    (hook, protocol)
}

/// Whether a connection may go on once its transport handshake is done.
#[derive(Debug)]
pub enum AfterHandshakeOutcome {
    Accept,
    Reject { error_code: u32, reason: Vec<u8> },
}

/// How to close a connection.
#[derive(Debug)]
pub struct Close {
    pub code: u32,
    pub reason: Vec<u8>,
}

impl Close {
    /// Whether the connection is closed with this code and this ASCII reason.
    pub open spec fn says(&self, code: u32, reason: Seq<char>) -> bool {
        self.code == code && self.reason@ == crate::bytes::ascii(reason)
    }
}

/// Closes a connection whose peer has authenticated.
pub fn close_accepted() -> (close: Close)
    ensures
        close.says(CLOSE_ACCEPTED, "accepted"@),
{
    proof {
        reveal_strlit("accepted");
    }
    Close { code: CLOSE_ACCEPTED, reason: ascii_bytes("accepted") }
}

/// Closes a connection whose peer has not authenticated.
pub fn close_denied() -> (close: Close)
    ensures
        close.says(CLOSE_DENIED, "denied"@),
{
    proof {
        reveal_strlit("denied");
    }
    Close { code: CLOSE_DENIED, reason: ascii_bytes("denied") }
}

/// Endpoint hook that rejects application connections from peers that have not
/// authenticated. Auth-ALPN connections are always allowed through (that is how
/// peers authenticate in the first place).
#[derive(Debug)]
pub struct IncomingAuthHook {
    allowed_remotes: RemoteSet,
}

impl IncomingAuthHook {
    /// The remotes that have authenticated.
    pub closed spec fn allowed(&self) -> Set<Seq<u8>> {
        self.allowed_remotes@
    }

    /// Decides on a connection for `alpn` from `remote_id`.
    pub fn after_handshake(&self, alpn: &[u8], remote_id: &EndpointId) -> (outcome:
        AfterHandshakeOutcome)
        ensures
            outcome is Accept <==> alpn@ == ALPN@ || self.allowed().contains(remote_id@),
            outcome matches AfterHandshakeOutcome::Reject { error_code, reason } ==> error_code
                == 403 && reason@ == crate::bytes::ascii("not authenticated"@),
    {
        if bytes_eq(alpn, ALPN.as_slice()) || self.allowed_remotes.contains(remote_id) {
            AfterHandshakeOutcome::Accept
        } else {
            proof {
                reveal_strlit("not authenticated");
            }
            AfterHandshakeOutcome::Reject {
                error_code: 403,
                reason: ascii_bytes("not authenticated"),
            }
        }
    }
}

/// A handshake in which the acceptor has sent its challenge and now waits for the answer.
#[derive(Debug)]
pub struct Challenged {
    nonce: Nonce,
    server_now: u64,
}

impl Challenged {
    /// The nonce of the challenge.
    pub closed spec fn nonce(&self) -> Seq<u8> {
        self.nonce@
    }

    /// When the challenge was made.
    pub closed spec fn time(&self) -> u64 {
        self.server_now
    }

    /// Answers a greeting with a challenge of the given nonce and time.
    pub fn with_nonce(hello: &ClientHello, nonce: Nonce, now: u64) -> (session: Result<
        Challenged,
        Error,
    >)
        ensures
            session is Ok <==> hello.version == PROTOCOL_VERSION,
            session matches Ok(s) ==> s.nonce() == nonce@ && s.time() == now,
            session matches Err(error) ==> error == Error::Version(hello.version),
    {
        if hello.version != PROTOCOL_VERSION {
            return Err(Error::Version(hello.version));
        }
        Ok(Challenged { nonce, server_now: now })
    }

    /// The challenge to send.
    pub fn message(&self) -> (challenge: ServerChallenge)
        ensures
            challenge.version == PROTOCOL_VERSION,
            challenge.nonce@ == self.nonce(),
            challenge.server_unix_secs == self.time(),
    {
        ServerChallenge {
            version: PROTOCOL_VERSION,
            nonce: self.nonce,
            server_unix_secs: self.server_now,
        }
    }
}

/// A remote whose institution has been verified.
#[derive(Debug)]
pub struct Authenticated {
    remote: EndpointId,
    institution: InstitutionId,
}

impl View for Authenticated {
    type V = (Seq<u8>, Seq<char>);

    /// The remote's endpoint id and the institution's label.
    closed spec fn view(&self) -> (Seq<u8>, Seq<char>) {
        (self.remote@, self.institution@)
    }
}

/// What a verifier's answer to a remote's assertion means for the handshake: a label admits the
/// remote under it, and a refusal denies it, with the reason in words.
pub open spec fn admission(remote: Seq<u8>, answer: Verdict) -> Result<
    (Seq<u8>, Seq<char>),
    ErrorView,
> {
    match answer {
        Ok(label) => Ok((remote, label)),
        Err(reason) => Err(ErrorView::Denied(reason.message())),
    }
}

impl Authenticated {
    /// Turns a verifier's answer to the assertion of `remote` into the result of the handshake.
    pub fn from_answer(
        remote: &EndpointId,
        answer: Result<InstitutionId, VerifyError>,
    ) -> (result: Result<Authenticated, Error>)
        ensures
            crate::error::outcome(result) == admission(remote@, crate::trust::verdict(answer)),
    {
        match answer {
            Ok(institution) => Ok(Authenticated { remote: *remote, institution }),
            Err(reason) => Err(Error::Denied(reason.message())),
        }
    }

    /// The endpoint id of the remote.
    pub fn remote(&self) -> (remote: EndpointId)
        ensures
            remote@ == self@.0,
    {
        self.remote
    }

    /// The label of the institution.
    pub fn institution(&self) -> (label: &str)
        ensures
            label@ == self@.1,
    {
        self.institution.as_str()
    }
}

/// Protocol handler that runs the institutional challenge–response and records
/// successfully authenticated remotes.
#[derive(Debug)]
pub struct AuthProtocol<V> {
    verifier: Arc<V>,
    max_skew_secs: Option<u64>,
}

impl<V: InstitutionVerifier> Clone for AuthProtocol<V> {
    fn clone(&self) -> (copy: Self)
        ensures
            copy.judge() == self.judge(),
            copy.max_skew() == self.max_skew(),
    {
        AuthProtocol { verifier: self.verifier.clone(), max_skew_secs: self.max_skew_secs }
    }
}

impl<V: InstitutionVerifier> AuthProtocol<V> {
    /// Who decides on the assertions.
    pub closed spec fn judge(&self) -> V {
        *self.verifier
    }

    /// The tolerance for the initiator's timestamp.
    pub closed spec fn max_skew(&self) -> Option<u64> {
        self.max_skew_secs
    }

    /// Set the tolerance for the initiator's asserted timestamp. `None` disables
    /// the freshness check entirely (the random nonce still prevents replay).
    pub fn with_max_skew(self, secs: Option<u64>) -> (protocol: Self)
        ensures
            protocol.judge() == self.judge(),
            protocol.max_skew() == secs,
    {
        AuthProtocol { verifier: self.verifier, max_skew_secs: secs }
    }

    /// Answers a greeting with a fresh challenge.
    pub fn challenge(&self, hello: &ClientHello) -> (session: Result<Challenged, Error>)
        ensures
            session is Ok <==> hello.version == PROTOCOL_VERSION,
            session matches Ok(s) ==> s.nonce().len() == 32 && crate::util::drawn(s.nonce()) && (
            exists|at: SystemTime|
                crate::util::clock_gave(at) && s.time() == #[trigger] crate::util::secs_at(at)),
            session matches Err(error) ==> error == Error::Version(hello.version),
    {
        Challenged::with_nonce(hello, draw_nonce(), unix_secs())
    }

    /// Decides on the initiator's answer to the challenge.
    ///
    /// `remote_id` is the QUIC-authenticated remote id, never anything the client
    /// claims — this is what ties the institution to *this* transport session.
    pub fn run_handshake(
        &self,
        session: Challenged,
        auth: &ClientAuth,
        remote_id: &EndpointId,
    ) -> (result: Result<Authenticated, Error>)
        ensures
            may_admit(
                self.judge(),
                self.max_skew(),
                session.nonce(),
                session.time(),
                auth@,
                remote_id@,
                crate::error::outcome(result),
            ),
    {
        if !is_fresh(self.max_skew_secs, session.server_now, auth.client_unix_secs) {
            return Err(Error::ClockSkew);
        }
        let message = transcript(&session.nonce, remote_id, auth.client_unix_secs);
        let answer = self.verifier.verify(
            auth.verifying_key.as_slice(),
            message.as_slice(),
            auth.signature.as_slice(),
        );
        let ghost given = crate::trust::verdict(answer);
        assert(self.judge().may_answer(
            auth@.0,
            crate::wire::transcript_bytes(session.nonce(), remote_id@, auth@.2),
            auth@.1,
            given,
        ));
        Authenticated::from_answer(remote_id, answer)
    }

    /// Ends the handshake: a remote that authenticated is let in from now on, and the connection
    /// is closed with the verdict.
    pub fn accept(
        &self,
        hook: &mut IncomingAuthHook,
        result: &Result<Authenticated, Error>,
    ) -> (close: Close)
        ensures
            final(hook).allowed() == recorded(
                old(hook).allowed(),
                crate::error::outcome(*result),
            ),
            result is Ok ==> close.says(CLOSE_ACCEPTED, "accepted"@),
            result is Err ==> close.says(CLOSE_DENIED, "denied"@),
    {
        match result {
            Ok(authenticated) => {
                hook.allowed_remotes.insert(&authenticated.remote);
                close_accepted()
            },
            Err(_) => close_denied(),
        }
    }
}

/// Whether `result` is what an acceptor with this verifier may make of the initiator's assertion
/// (its key, signature and timestamp), after a challenge of this nonce and time: the timestamp is
/// checked first; then the verifier decides on the transcript of our nonce and the remote's id.
pub open spec fn may_admit<V: InstitutionVerifier>(
    judge: V,
    max_skew: Option<u64>,
    nonce: Seq<u8>,
    time: u64,
    auth: (Seq<u8>, Seq<u8>, u64),
    remote: Seq<u8>,
    result: Result<(Seq<u8>, Seq<char>), ErrorView>,
) -> bool {
    if !crate::util::fresh(max_skew, time, auth.2) {
        result == Err::<(Seq<u8>, Seq<char>), _>(ErrorView::ClockSkew)
    } else {
        exists|answer: Verdict| #[trigger]
            judge.may_answer(
                auth.0,
                crate::wire::transcript_bytes(nonce, remote, auth.2),
                auth.1,
                answer,
            ) && result == admission(remote, answer)
    }
}

/// The remotes that are let in after a handshake with this result.
pub open spec fn recorded(
    allowed: Set<Seq<u8>>,
    result: Result<(Seq<u8>, Seq<char>), ErrorView>,
) -> Set<Seq<u8>> {
    match result {
        Ok((remote, _)) => allowed.insert(remote),
        Err(_) => allowed,
    }
}

} // verus!
