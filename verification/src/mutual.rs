//! Mutual institutional authentication: both peers prove *and* verify each
//! other's institution in a single auth-ALPN exchange, and a combined hook
//! gates application connections in both directions.
//!
//! Use this when neither side is purely a client — e.g. hospital ↔ hospital,
//! where each endpoint must be sure of the other's institution before any
//! application protocol runs.
//!
//! Each endpoint has:
//! * the [`MutualAuthHook`] (`before_connect` to authenticate outward,
//!   `after_handshake` to gate inward), and
//! * the [`MutualAuthProtocol`] on [`MUTUAL_ALPN`], and
//! * the [`MutualAuthTask`]; the endpoint's own id has to be published to
//!   the acceptor side before it can answer anyone.

use crate::bytes::{ascii_bytes, bytes_eq};
use crate::error::{Error, ErrorView};
use crate::incoming::{
    close_accepted, close_denied, AfterHandshakeOutcome, Authenticated, Close,
    DEFAULT_MAX_SKEW_SECS,
};
use crate::outgoing::BeforeConnectOutcome;
use crate::peers::{answer_all, AuthResult, Pending, RemoteSet, Request};
use crate::signer::{InstitutionalSigner, Signed};
use crate::trust::{InstitutionVerifier, Verdict, VerifyError};
use crate::util::{draw_nonce, is_fresh, unix_secs};
use crate::wire::{
    mutual_transcript, EndpointId, MutualChallenge, MutualHello, MutualResponse, Nonce,
    CLOSE_ACCEPTED, CLOSE_DENIED, MUTUAL_ALPN, PROTOCOL_VERSION, ROLE_ACCEPTOR, ROLE_INITIATOR,
};
use std::sync::Arc;
use std::time::SystemTime;
use vstd::prelude::*;

verus! {

/// Build the three pieces for mutual auth on one endpoint. The signer stays with the task, which
/// lends it to the acceptor side; the verifier is shared.
pub fn mutual<S: InstitutionalSigner, V: InstitutionVerifier, W>(signer: S, verifier: V) -> (pieces:
    (MutualAuthHook, MutualAuthProtocol<V>, MutualAuthTask<S, V, W>))
    ensures
        pieces.0.allowed() == Set::<Seq<u8>>::empty(),
        pieces.0.local() is None,
        pieces.1.judge() == verifier,
        pieces.1.max_skew() == Some(DEFAULT_MAX_SKEW_SECS),
        pieces.2.signer() == signer,
        pieces.2.judge() == verifier,
        pieces.2.pending() == Map::<Seq<u8>, Seq<W>>::empty(),
        pieces.2.max_skew() == Some(DEFAULT_MAX_SKEW_SECS),
{
    let verifier = Arc::new(verifier);
    let hook = MutualAuthHook { allowed: RemoteSet::new(), local_id: None };
    let protocol = MutualAuthProtocol {
        verifier: verifier.clone(),
        max_skew_secs: Some(DEFAULT_MAX_SKEW_SECS),
    };
    let task = MutualAuthTask {
        signer,
        verifier,
        pending: Pending::new(),
        max_skew_secs: Some(DEFAULT_MAX_SKEW_SECS),
    };
    (hook, protocol, task)
}

/// Combined endpoint hook: authenticates outgoing connections and gates
/// incoming ones, both against the shared mutually-authenticated peer set.
/// It also keeps this endpoint's own id, once that is known.
#[derive(Debug)]
pub struct MutualAuthHook {
    allowed: RemoteSet,
    local_id: Option<EndpointId>,
}

impl MutualAuthHook {
    /// The peers with which authentication has succeeded, in either direction.
    pub closed spec fn allowed(&self) -> Set<Seq<u8>> {
        self.allowed@
    }

    /// This endpoint's own id, once it is published.
    pub closed spec fn local(&self) -> Option<Seq<u8>> {
        match self.local_id {
            Some(id) => Some(id@),
            None => None,
        }
    }

    /// Publishes this endpoint's id for the acceptor side. The first id stays.
    pub fn publish(&mut self, id: &EndpointId)
        ensures
            final(self).local() == (match old(self).local() {
                Some(first) => Some(first),
                None => Some(id@),
            }),
            final(self).allowed() == old(self).allowed(),
    {
        if self.local_id.is_none() {
            self.local_id = Some(*id);
        }
    }

    /// This endpoint's own id, for the acceptor side to sign for.
    pub fn own_id(&self) -> (id: Result<EndpointId, Error>)
        ensures
            id is Ok <==> self.local() is Some,
            id matches Ok(own) ==> self.local() == Some(own@),
            id matches Err(error) ==> error@ == ErrorView::Signer(
                "local endpoint id not set — spawn the MutualAuthTask"@,
            ),
    {
        match self.local_id {
            Some(id) => Ok(id),
            None => Err(
                Error::Signer("local endpoint id not set — spawn the MutualAuthTask".to_owned()),
            ),
        }
    }

    /// Decides on an outgoing connection for `alpn` before anything is known of the remote. The
    /// auth handshake itself is never intercepted; `None` asks for authentication first.
    pub fn before_connect(&self, alpn: &[u8]) -> (outcome: Option<BeforeConnectOutcome>)
        ensures
            outcome is None <==> alpn@ != MUTUAL_ALPN@,
            outcome matches Some(o) ==> o is Accept,
    {
        if bytes_eq(alpn, MUTUAL_ALPN.as_slice()) {
            Some(BeforeConnectOutcome::Accept)
        } else {
            None
        }
    }

    /// Decides on an incoming connection for `alpn` from `remote_id`.
    pub fn after_handshake(&self, alpn: &[u8], remote_id: &EndpointId) -> (outcome:
        AfterHandshakeOutcome)
        ensures
            outcome is Accept <==> alpn@ == MUTUAL_ALPN@ || self.allowed().contains(remote_id@),
            outcome matches AfterHandshakeOutcome::Reject { error_code, reason } ==> error_code
                == 403 && reason@ == crate::bytes::ascii("not mutually authenticated"@),
    {
        if bytes_eq(alpn, MUTUAL_ALPN.as_slice()) || self.allowed.contains(remote_id) {
            AfterHandshakeOutcome::Accept
        } else {
            proof {
                reveal_strlit("not mutually authenticated");
            }
            AfterHandshakeOutcome::Reject {
                error_code: 403,
                reason: ascii_bytes("not mutually authenticated"),
            }
        }
    }
}

/// A mutual handshake in which the acceptor has sent its challenge and now waits for the
/// initiator's assertion.
#[derive(Debug)]
pub struct MutualChallenged {
    nonce: Nonce,
}

impl MutualChallenged {
    /// The nonce of the challenge.
    pub closed spec fn nonce(&self) -> Seq<u8> {
        self.nonce@
    }
}

/// What the acceptor sends once its signer has answered: its nonce, key, signature and time, or
/// the signer's error.
pub open spec fn mutual_challenge(
    nonce: Seq<u8>,
    key: Seq<u8>,
    answer: Signed,
    now: u64,
) -> Result<(Seq<u8>, Seq<u8>, Seq<u8>, u64), ErrorView> {
    match answer {
        Ok(signature) => Ok((nonce, key, signature, now)),
        Err(error) => Err(error),
    }
}

/// The view of what the acceptor makes of a greeting: the challenge's nonce, key, signature and
/// time, or the error.
pub open spec fn challenge_view(r: Result<(MutualChallenge, MutualChallenged), Error>) -> Result<
    (Seq<u8>, Seq<u8>, Seq<u8>, u64),
    ErrorView,
> {
    match r {
        Ok((challenge, _)) => Ok(
            (
                challenge.nonce@,
                challenge.verifying_key@,
                challenge.signature@,
                challenge.acceptor_unix_secs,
            ),
        ),
        Err(error) => Err(error@),
    }
}

/// Puts the acceptor's key and its signer's answer into the second message.
pub fn make_challenge(
    nonce: Nonce,
    verifying_key: Vec<u8>,
    answer: Result<Vec<u8>, Error>,
    now: u64,
) -> (made: Result<(MutualChallenge, MutualChallenged), Error>)
    ensures
        challenge_view(made) == mutual_challenge(
            nonce@,
            verifying_key@,
            crate::error::outcome(answer),
            now,
        ),
        made matches Ok((challenge, session)) ==> challenge.version == PROTOCOL_VERSION
            && session.nonce() == challenge.nonce@,
{
    match answer {
        Ok(signature) => Ok(
            (
                MutualChallenge {
                    version: PROTOCOL_VERSION,
                    nonce,
                    verifying_key,
                    signature,
                    acceptor_unix_secs: now,
                },
                MutualChallenged { nonce },
            ),
        ),
        Err(error) => Err(error),
    }
}

/// Whether `made` is what an acceptor with this signer may make of a greeting, with the nonce
/// `nonce` and at the time `now`: the version is checked first; then the acceptor proves itself,
/// bound to the initiator's nonce.
pub open spec fn may_challenge<S: InstitutionalSigner>(
    signer: S,
    local_id: Seq<u8>,
    hello: MutualHello,
    nonce: Seq<u8>,
    now: u64,
    made: Result<(Seq<u8>, Seq<u8>, Seq<u8>, u64), ErrorView>,
) -> bool {
    if hello.version != PROTOCOL_VERSION {
        made == Err::<(Seq<u8>, Seq<u8>, Seq<u8>, u64), _>(ErrorView::Version(hello.version))
    } else {
        exists|key: Seq<u8>, answer: Signed| #[trigger]
            signer.may_present(key) && #[trigger] signer.may_answer(
                crate::wire::mutual_transcript_bytes(ROLE_ACCEPTOR, hello.nonce@, local_id, now),
                answer,
            ) && made == mutual_challenge(nonce, key, answer, now)
    }
}

/// Acceptor side of the mutual handshake, on [`MUTUAL_ALPN`].
#[derive(Debug)]
pub struct MutualAuthProtocol<V> {
    verifier: Arc<V>,
    max_skew_secs: Option<u64>,
}

impl<V: InstitutionVerifier> Clone for MutualAuthProtocol<V> {
    fn clone(&self) -> (copy: Self)
        ensures
            copy.judge() == self.judge(),
            copy.max_skew() == self.max_skew(),
    {
        MutualAuthProtocol { verifier: self.verifier.clone(), max_skew_secs: self.max_skew_secs }
    }
}

impl<V: InstitutionVerifier> MutualAuthProtocol<V> {
    /// Who decides on the peers' assertions.
    pub closed spec fn judge(&self) -> V {
        *self.verifier
    }

    /// The tolerance for the peer's timestamp.
    pub closed spec fn max_skew(&self) -> Option<u64> {
        self.max_skew_secs
    }

    /// Tolerance for the peer's asserted timestamp. `None` disables the check
    /// (the random nonces still prevent replay).
    pub fn with_max_skew(self, secs: Option<u64>) -> (protocol: Self)
        ensures
            protocol.judge() == self.judge(),
            protocol.max_skew() == secs,
    {
        MutualAuthProtocol { verifier: self.verifier, max_skew_secs: secs }
    }

    /// Answers a greeting with the given nonce and time: proves ourselves to the initiator, bound
    /// to its nonce.
    pub fn challenge_at<S: InstitutionalSigner>(
        &self,
        signer: &mut S,
        local_id: &EndpointId,
        hello: &MutualHello,
        nonce: Nonce,
        now: u64,
    ) -> (made: Result<(MutualChallenge, MutualChallenged), Error>)
        ensures
            may_challenge(*old(signer), local_id@, *hello, nonce@, now, challenge_view(made)),
            made matches Ok((challenge, session)) ==> challenge.version == PROTOCOL_VERSION
                && session.nonce() == challenge.nonce@,
            forall|key: Seq<u8>| #[trigger]
                final(signer).may_present(key) <==> old(signer).may_present(key),
            forall|asked: Seq<u8>, given: Signed| #[trigger]
                final(signer).may_answer(asked, given) <==> old(signer).may_answer(asked, given),
    {
        if hello.version != PROTOCOL_VERSION {
            return Err(Error::Version(hello.version));
        }
        let message = mutual_transcript(ROLE_ACCEPTOR, &hello.nonce, local_id, now);
        let answer = signer.sign(message.as_slice());
        let key = signer.verifying_key();
        let ghost given = crate::error::outcome(answer);
        let ghost shown = key@;
        assert(old(signer).may_present(shown));
        assert(old(signer).may_answer(
            crate::wire::mutual_transcript_bytes(ROLE_ACCEPTOR, hello.nonce@, local_id@, now),
            given,
        ));
        make_challenge(nonce, key, answer, now)
    }

    /// Answers a greeting now, with a fresh nonce.
    pub fn challenge<S: InstitutionalSigner>(
        &self,
        signer: &mut S,
        local_id: &EndpointId,
        hello: &MutualHello,
    ) -> (made: Result<(MutualChallenge, MutualChallenged), Error>)
        ensures
            exists|nonce: Seq<u8>, at: SystemTime|
                crate::util::drawn(nonce) && crate::util::clock_gave(at) && #[trigger]
                may_challenge(
                    *old(signer),
                    local_id@,
                    *hello,
                    nonce,
                    crate::util::secs_at(at),
                    challenge_view(made),
                ),
            made matches Ok((challenge, session)) ==> challenge.version == PROTOCOL_VERSION
                && session.nonce() == challenge.nonce@ && crate::util::drawn(challenge.nonce@),
            forall|key: Seq<u8>| #[trigger]
                final(signer).may_present(key) <==> old(signer).may_present(key),
            forall|asked: Seq<u8>, given: Signed| #[trigger]
                final(signer).may_answer(asked, given) <==> old(signer).may_answer(asked, given),
    {
        let nonce = draw_nonce();
        let now: u64 = unix_secs();
        self.challenge_at(signer, local_id, hello, nonce, now)
    }

    /// Decides on the initiator's assertion at the time `now`, bound to our nonce and its
    /// QUIC-authenticated id.
    pub fn handshake_at(
        &self,
        session: MutualChallenged,
        response: &MutualResponse,
        remote_id: &EndpointId,
        now: u64,
    ) -> (result: Result<Authenticated, Error>)
        ensures
            may_conclude(
                self.judge(),
                self.max_skew(),
                session.nonce(),
                response@,
                remote_id@,
                now,
                crate::error::outcome(result),
            ),
    {
        if !is_fresh(self.max_skew_secs, now, response.initiator_unix_secs) {
            return Err(Error::ClockSkew);
        }
        let message = mutual_transcript(
            ROLE_INITIATOR,
            &session.nonce,
            remote_id,
            response.initiator_unix_secs,
        );
        let answer = self.verifier.verify(
            response.verifying_key.as_slice(),
            message.as_slice(),
            response.signature.as_slice(),
        );
        let ghost given = crate::trust::verdict(answer);
        assert(self.judge().may_answer(
            response@.0,
            crate::wire::mutual_transcript_bytes(
                ROLE_INITIATOR,
                session.nonce(),
                remote_id@,
                response@.2,
            ),
            response@.1,
            given,
        ));
        Authenticated::from_answer(remote_id, answer)
    }

    /// Decides on the initiator's assertion now.
    pub fn handshake(
        &self,
        session: MutualChallenged,
        response: &MutualResponse,
        remote_id: &EndpointId,
    ) -> (result: Result<Authenticated, Error>)
        ensures
            exists|at: SystemTime|
                crate::util::clock_gave(at) && may_conclude(
                    self.judge(),
                    self.max_skew(),
                    session.nonce(),
                    response@,
                    remote_id@,
                    #[trigger] crate::util::secs_at(at),
                    crate::error::outcome(result),
                ),
    {
        let now: u64 = unix_secs();
        self.handshake_at(session, response, remote_id, now)
    }

    /// Ends the handshake: a remote that authenticated joins the shared peer set, and the
    /// connection is closed with the verdict.
    pub fn accept(
        &self,
        hook: &mut MutualAuthHook,
        result: &Result<Authenticated, Error>,
    ) -> (close: Close)
        ensures
            final(hook).allowed() == crate::incoming::recorded(
                old(hook).allowed(),
                crate::error::outcome(*result),
            ),
            final(hook).local() == old(hook).local(),
            result is Ok ==> close.says(CLOSE_ACCEPTED, "accepted"@),
            result is Err ==> close.says(CLOSE_DENIED, "denied"@),
    {
        match result {
            Ok(authenticated) => {
                hook.allowed.insert(&authenticated.remote());
                close_accepted()
            },
            Err(_) => close_denied(),
        }
    }
}

/// Whether `result` is what an acceptor with this verifier may make of the initiator's response
/// (its key, signature and timestamp) at the time `now`: the timestamp is checked first; then the
/// verifier decides on the transcript of the initiator's role, our nonce and the remote's id.
pub open spec fn may_conclude<V: InstitutionVerifier>(
    judge: V,
    max_skew: Option<u64>,
    nonce: Seq<u8>,
    response: (Seq<u8>, Seq<u8>, u64),
    remote: Seq<u8>,
    now: u64,
    result: Result<(Seq<u8>, Seq<char>), ErrorView>,
) -> bool {
    if !crate::util::fresh(max_skew, now, response.2) {
        result == Err::<(Seq<u8>, Seq<char>), _>(ErrorView::ClockSkew)
    } else {
        exists|answer: Verdict| #[trigger]
            judge.may_answer(
                response.0,
                crate::wire::mutual_transcript_bytes(ROLE_INITIATOR, nonce, remote, response.2),
                response.1,
                answer,
            ) && result == crate::incoming::admission(remote, answer)
    }
}

/// Background task that drives outgoing mutual handshakes, de-duplicating
/// concurrent dials and caching results in the shared peer set.
#[derive(Debug)]
pub struct MutualAuthTask<S, V, W> {
    signer: S,
    verifier: Arc<V>,
    pending: Pending<W>,
    max_skew_secs: Option<u64>,
}

impl<S: InstitutionalSigner, V: InstitutionVerifier, W> MutualAuthTask<S, V, W> {
    /// Who signs our assertions.
    pub closed spec fn signer(&self) -> S {
        self.signer
    }

    /// Who decides on the peers' assertions.
    pub closed spec fn judge(&self) -> V {
        *self.verifier
    }

    /// The waiters for each remote with which a handshake is under way.
    pub closed spec fn pending(&self) -> Map<Seq<u8>, Seq<W>> {
        self.pending@
    }

    /// The tolerance for the peer's timestamp.
    pub closed spec fn max_skew(&self) -> Option<u64> {
        self.max_skew_secs
    }

    /// The signer, for the acceptor side or for a handshake that is to be started.
    pub fn signer_mut(&mut self) -> (signer: &mut S)
        ensures
            *signer == old(self).signer(),
            final(self).signer() == *final(signer),
            final(self).judge() == old(self).judge(),
            final(self).pending() == old(self).pending(),
            final(self).max_skew() == old(self).max_skew(),
    {
        &mut self.signer
    }

    /// A handle on the verifier, and the tolerance, for a handshake that is to be started.
    pub fn checks(&self) -> (parts: (Arc<V>, Option<u64>))
        ensures
            *parts.0 == self.judge(),
            parts.1 == self.max_skew(),
    {
        (self.verifier.clone(), self.max_skew_secs)
    }

    /// A handle on the signer, for a handshake that is to be started.
    pub fn dialer(&self) -> (signer: S) where S: Clone
        ensures
            cloned(self.signer(), signer),
    {
        self.signer.clone()
    }

    /// Takes up a request to authenticate towards a remote: a peer in the shared set is answered
    /// at once, a handshake that is under way is waited for, and otherwise a new one is to be
    /// started.
    pub fn handle_request(
        &mut self,
        hook: &MutualAuthHook,
        remote_id: &EndpointId,
        waiter: W,
    ) -> (request: Request<W>)
        ensures
            request == crate::outgoing::requested(
                hook.allowed(),
                old(self).pending(),
                remote_id@,
                waiter,
            ),
            final(self).pending() == crate::outgoing::pending_after_request(
                hook.allowed(),
                old(self).pending(),
                remote_id@,
                waiter,
            ),
            final(self).signer() == old(self).signer(),
            final(self).judge() == old(self).judge(),
            final(self).max_skew() == old(self).max_skew(),
    {
        if hook.allowed.contains(remote_id) {
            return Request::Admit(waiter);
        }
        if self.pending.enqueue(remote_id, waiter) {
            Request::Dial
        } else {
            Request::Wait
        }
    }

    /// Ends a handshake: on success the remote joins the shared peer set, and everyone who waited
    /// is told the result.
    pub fn handle_completion(
        &mut self,
        hook: &mut MutualAuthHook,
        remote_id: &EndpointId,
        res: &AuthResult,
    ) -> (answers: Vec<(W, AuthResult)>)
        ensures
            answers@ == crate::peers::waiting(old(self).pending(), remote_id@).map_values(
                |waiter: W| (waiter, *res),
            ),
            final(self).pending() == old(self).pending().remove(remote_id@),
            final(hook).allowed() == (if res is Ok {
                old(hook).allowed().insert(remote_id@)
            } else {
                old(hook).allowed()
            }),
            final(hook).local() == old(hook).local(),
            final(self).signer() == old(self).signer(),
            final(self).judge() == old(self).judge(),
            final(self).max_skew() == old(self).max_skew(),
    {
        match res {
            Ok(_) => hook.allowed.insert(remote_id),
            Err(_) => {},
        }
        let waiters = self.pending.take(remote_id);
        answer_all(waiters, res)
    }
}

/// A mutual handshake that we have opened with a greeting.
#[derive(Debug)]
pub struct MutualGreeting {
    nonce: Nonce,
}

/// What the initiator does next.
#[derive(Debug)]
pub enum MutualStep {
    /// Send our assertion and wait for the acceptor's verdict.
    Respond(MutualResponse),
    /// Give the handshake up, after closing the connection where that is asked for.
    Abort { close: Option<Close>, error: Error },
}

/// A [`MutualStep`] as a mathematical value: the assertion's key, signature and time; or the code
/// and reason to close with, and the error.
pub enum MutualStepView {
    Respond((Seq<u8>, Seq<u8>, u64)),
    Abort(Option<(u32, Seq<u8>)>, ErrorView),
}

impl View for MutualStep {
    type V = MutualStepView;

    open spec fn view(&self) -> MutualStepView {
        match self {
            MutualStep::Respond(response) => MutualStepView::Respond(response@),
            MutualStep::Abort { close: Some(close), error } => MutualStepView::Abort(
                Some((close.code, close.reason@)),
                error@,
            ),
            MutualStep::Abort { close: None, error } => MutualStepView::Abort(None, error@),
        }
    }
}

/// Giving up with a close frame that tells the acceptor so.
pub open spec fn denied_step(reason: Seq<char>, error: ErrorView) -> MutualStepView {
    MutualStepView::Abort(Some((CLOSE_DENIED, crate::bytes::ascii(reason))), error)
}

/// What the initiator does once its signer has answered: it sends its key, signature and time, or
/// gives up with the signer's error.
pub open spec fn response_step(key: Seq<u8>, answer: Signed, now: u64) -> MutualStepView {
    match answer {
        Ok(signature) => MutualStepView::Respond((key, signature, now)),
        Err(error) => MutualStepView::Abort(None, error),
    }
}

/// Whether `step` is what an initiator may do once it has verified the acceptor: prove itself,
/// bound to the acceptor's nonce, at the time `now`.
pub open spec fn may_prove<S: InstitutionalSigner>(
    signer: S,
    peer_nonce: Seq<u8>,
    my_id: Seq<u8>,
    now: u64,
    step: MutualStepView,
) -> bool {
    exists|key: Seq<u8>, answer: Signed| #[trigger]
        signer.may_present(key) && #[trigger] signer.may_answer(
            crate::wire::mutual_transcript_bytes(ROLE_INITIATOR, peer_nonce, my_id, now),
            answer,
        ) && step == response_step(key, answer, now)
}

/// Whether `refused` is how an initiator that greeted with `nonce` may turn a challenge from the
/// remote `peer` down (`None` if it does not): it checks the version, then the timestamp (at the
/// time `checked`), then the acceptor's assertion, bound to its own nonce and the remote's
/// QUIC-authenticated id, and closes the connection on the first that fails.
pub open spec fn may_check<V: InstitutionVerifier>(
    judge: V,
    max_skew: Option<u64>,
    nonce: Seq<u8>,
    challenge: MutualChallenge,
    peer: Seq<u8>,
    checked: u64,
    refused: Option<MutualStepView>,
) -> bool {
    if challenge.version != PROTOCOL_VERSION {
        refused == Some(denied_step("version"@, ErrorView::Version(challenge.version)))
    } else if !crate::util::fresh(max_skew, checked, challenge.acceptor_unix_secs) {
        refused == Some(denied_step("skew"@, ErrorView::ClockSkew))
    } else {
        exists|answer: Verdict| #[trigger]
            judge.may_answer(
                challenge.verifying_key@,
                crate::wire::mutual_transcript_bytes(
                    ROLE_ACCEPTOR,
                    nonce,
                    peer,
                    challenge.acceptor_unix_secs,
                ),
                challenge.signature@,
                answer,
            ) && refused == (match answer {
                Err(reason) => Some(
                    denied_step(
                        "peer-untrusted"@,
                        ErrorView::Denied("acceptor failed verification: "@ + reason.message()),
                    ),
                ),
                Ok(_) => None,
            })
    }
}

/// Whether `step` is what an initiator that greeted with `nonce` may do on a challenge from the
/// remote `peer`: it gives up if it turns the challenge down, and otherwise proves itself, at the
/// time `now`.
pub open spec fn may_step<S: InstitutionalSigner, V: InstitutionVerifier>(
    signer: S,
    judge: V,
    max_skew: Option<u64>,
    nonce: Seq<u8>,
    challenge: MutualChallenge,
    peer: Seq<u8>,
    my_id: Seq<u8>,
    checked: u64,
    now: u64,
    step: MutualStepView,
) -> bool {
    exists|refused: Option<MutualStepView>| #[trigger]
        may_check(judge, max_skew, nonce, challenge, peer, checked, refused) && match refused {
            Some(abort) => step == abort,
            None => may_prove(signer, challenge.nonce@, my_id, now, step),
        }
}

/// The view of a refusal.
pub open spec fn refusal_view(refused: Option<MutualStep>) -> Option<MutualStepView> {
    match refused {
        Some(step) => Some(step@),
        None => None,
    }
}

/// Puts our key and our signer's answer into the third message.
pub fn make_response(verifying_key: Vec<u8>, answer: Result<Vec<u8>, Error>, now: u64) -> (step:
    MutualStep)
    ensures
        step@ == response_step(verifying_key@, crate::error::outcome(answer), now),
{
    match answer {
        Ok(signature) => MutualStep::Respond(
            MutualResponse { verifying_key, signature, initiator_unix_secs: now },
        ),
        Err(error) => MutualStep::Abort { close: None, error },
    }
}

/// Gives up because the acceptor's assertion was refused: closes without responding, so that it
/// never records us.
pub fn refuse_acceptor(reason: &VerifyError) -> (step: MutualStep)
    ensures
        step@ == denied_step(
            "peer-untrusted"@,
            ErrorView::Denied("acceptor failed verification: "@ + reason@.message()),
        ),
{
    proof {
        reveal_strlit("peer-untrusted");
    }
    MutualStep::Abort {
        close: Some(Close { code: CLOSE_DENIED, reason: ascii_bytes("peer-untrusted") }),
        error: Error::Denied(
            "acceptor failed verification: ".to_owned().concat(reason.message().as_str()),
        ),
    }
}

/// Proves ourselves to the acceptor at the time `now`, bound to its nonce.
pub fn prove_at<S: InstitutionalSigner>(
    signer: &mut S,
    peer_nonce: &Nonce,
    my_id: &EndpointId,
    now: u64,
) -> (step: MutualStep)
    ensures
        may_prove(*old(signer), peer_nonce@, my_id@, now, step@),
        forall|key: Seq<u8>| #[trigger]
            final(signer).may_present(key) <==> old(signer).may_present(key),
        forall|asked: Seq<u8>, given: Signed| #[trigger]
            final(signer).may_answer(asked, given) <==> old(signer).may_answer(asked, given),
{
    let message = mutual_transcript(ROLE_INITIATOR, peer_nonce, my_id, now);
    let answer = signer.sign(message.as_slice());
    let key = signer.verifying_key();
    let ghost given = crate::error::outcome(answer);
    let ghost shown = key@;
    assert(old(signer).may_present(shown));
    assert(old(signer).may_answer(
        crate::wire::mutual_transcript_bytes(ROLE_INITIATOR, peer_nonce@, my_id@, now),
        given,
    ));
    make_response(key, answer, now)
}

impl MutualGreeting {
    /// The nonce of the greeting.
    pub closed spec fn nonce(&self) -> Seq<u8> {
        self.nonce@
    }

    /// Opens a handshake with the given nonce.
    pub fn with_nonce(nonce: Nonce) -> (greeting: Self)
        ensures
            greeting.nonce() == nonce@,
    {
        MutualGreeting { nonce }
    }

    /// Opens a handshake with a fresh nonce.
    pub fn new() -> (greeting: Self)
        ensures
            greeting.nonce().len() == 32,
            crate::util::drawn(greeting.nonce()),
    {
        MutualGreeting::with_nonce(draw_nonce())
    }

    /// The greeting to send.
    pub fn message(&self) -> (hello: MutualHello)
        ensures
            hello.version == PROTOCOL_VERSION,
            hello.nonce@ == self.nonce(),
    {
        MutualHello { version: PROTOCOL_VERSION, nonce: self.nonce }
    }

    /// Decides at the time `checked` whether to turn the acceptor's challenge down.
    pub fn check_at<V: InstitutionVerifier>(
        &self,
        verifier: &V,
        max_skew_secs: Option<u64>,
        challenge: &MutualChallenge,
        peer_id: &EndpointId,
        checked: u64,
    ) -> (refused: Option<MutualStep>)
        ensures
            may_check(
                *verifier,
                max_skew_secs,
                self.nonce(),
                *challenge,
                peer_id@,
                checked,
                refusal_view(refused),
            ),
    {
        proof {
            reveal_strlit("version");
            reveal_strlit("skew");
        }
        if challenge.version != PROTOCOL_VERSION {
            return Some(
                MutualStep::Abort {
                    close: Some(Close { code: CLOSE_DENIED, reason: ascii_bytes("version") }),
                    error: Error::Version(challenge.version),
                },
            );
        }
        if !is_fresh(max_skew_secs, checked, challenge.acceptor_unix_secs) {
            return Some(
                MutualStep::Abort {
                    close: Some(Close { code: CLOSE_DENIED, reason: ascii_bytes("skew") }),
                    error: Error::ClockSkew,
                },
            );
        }
        let message = mutual_transcript(
            ROLE_ACCEPTOR,
            &self.nonce,
            peer_id,
            challenge.acceptor_unix_secs,
        );
        let answer = verifier.verify(
            challenge.verifying_key.as_slice(),
            message.as_slice(),
            challenge.signature.as_slice(),
        );
        let ghost given = crate::trust::verdict(answer);
        assert(verifier.may_answer(
            challenge.verifying_key@,
            crate::wire::mutual_transcript_bytes(
                ROLE_ACCEPTOR,
                self.nonce(),
                peer_id@,
                challenge.acceptor_unix_secs,
            ),
            challenge.signature@,
            given,
        ));
        match answer {
            Err(reason) => Some(refuse_acceptor(&reason)),
            Ok(_) => None,
        }
    }

    /// Decides on the acceptor's challenge: verifies the acceptor, then proves ourselves. The
    /// clock is read once for each.
    pub fn handshake<S: InstitutionalSigner, V: InstitutionVerifier>(
        self,
        signer: &mut S,
        verifier: &V,
        max_skew_secs: Option<u64>,
        challenge: &MutualChallenge,
        peer_id: &EndpointId,
        my_id: &EndpointId,
    ) -> (step: MutualStep)
        ensures
            exists|checked: SystemTime, now: SystemTime|
                crate::util::clock_gave(checked) && crate::util::clock_gave(now) && #[trigger]
                may_step(
                    *old(signer),
                    *verifier,
                    max_skew_secs,
                    self.nonce(),
                    *challenge,
                    peer_id@,
                    my_id@,
                    crate::util::secs_at(checked),
                    crate::util::secs_at(now),
                    step@,
                ),
            forall|key: Seq<u8>| #[trigger]
                final(signer).may_present(key) <==> old(signer).may_present(key),
            forall|asked: Seq<u8>, given: Signed| #[trigger]
                final(signer).may_answer(asked, given) <==> old(signer).may_answer(asked, given),
    {
        let checked: u64 = unix_secs();
        let refused = self.check_at(verifier, max_skew_secs, challenge, peer_id, checked);
        let ghost turned_down = refusal_view(refused);
        let mut now: u64 = checked;
        let step = match refused {
            Some(abort) => abort,
            None => {
                now = unix_secs();
                prove_at(signer, &challenge.nonce, my_id, now)
            },
        };
        assert(may_check(
            *verifier,
            max_skew_secs,
            self.nonce(),
            *challenge,
            peer_id@,
            checked,
            turned_down,
        ));
        assert(may_step(
            *old(signer),
            *verifier,
            max_skew_secs,
            self.nonce(),
            *challenge,
            peer_id@,
            my_id@,
            checked,
            now,
            step@,
        ));
        step
    }
}

} // verus!
