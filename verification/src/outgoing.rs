//! Initiator side: pre-authenticate outgoing connections before the
//! application protocol is dialed.

use crate::bytes::bytes_eq;
use crate::error::{transport, Error, ErrorView};
use crate::peers::{answer_all, AuthResult, Pending, RemoteSet, Request};
use crate::signer::{InstitutionalSigner, Signed};
use crate::util::unix_secs;
use crate::wire::{
    transcript, ClientAuth, ClientHello, EndpointId, ServerChallenge, ALPN, CLOSE_ACCEPTED,
    CLOSE_DENIED, PROTOCOL_VERSION,
};
use std::time::SystemTime;
use vstd::prelude::*;

verus! {

/// Build the initiator-side hook and its companion task.
pub fn outgoing<S: InstitutionalSigner, W>(signer: S) -> (pair: (
    OutgoingAuthHook,
    OutgoingAuthTask<S, W>,
))
    ensures
        pair.1.signer() == signer,
        pair.1.allowed() == Set::<Seq<u8>>::empty(),
        pair.1.pending() == Map::<Seq<u8>, Seq<W>>::empty(),
{
    let task = OutgoingAuthTask {
        signer,
        allowed_remotes: RemoteSet::new(),
        pending_remotes: Pending::new(),
    };
    (OutgoingAuthHook, task)
}

/// Whether an outgoing connection may be dialed.
#[derive(Debug)]
pub enum BeforeConnectOutcome {
    Accept,
    Reject,
}

/// What the reply of the authenticator means for the one who asked: without a reply it has
/// stopped, and an error denies, in words.
pub open spec fn settled(reply: Option<AuthResult>) -> Option<ErrorView> {
    match reply {
        None => Some(ErrorView::AuthenticatorStopped),
        Some(Ok(_)) => None,
        Some(Err(error)) => Some(ErrorView::Denied(error@.message())),
    }
}

/// Turns the reply of the authenticator (`None` if it has stopped) into a result.
pub fn settle(reply: Option<AuthResult>) -> (result: Result<(), Error>)
    ensures
        result is Ok <==> settled(reply) is None,
        result matches Err(error) ==> settled(reply) == Some(error@),
{
    match reply {
        None => Err(Error::AuthenticatorStopped),
        Some(Ok(_)) => Ok(()),
        Some(Err(error)) => Err(Error::Denied(error.message())),
    }
}

/// A connection is dialed only if authentication has succeeded.
pub fn connect_outcome(authenticated: &Result<(), Error>) -> (outcome: BeforeConnectOutcome)
    ensures
        outcome is Accept <==> authenticated is Ok,
{
    match authenticated {
        Ok(_) => BeforeConnectOutcome::Accept,
        Err(_) => BeforeConnectOutcome::Reject,
    }
}

/// Endpoint hook that gates outgoing connections on a prior auth handshake.
#[derive(Debug)]
pub struct OutgoingAuthHook;

impl OutgoingAuthHook {
    /// Decides on a connection for `alpn` before anything is known of the remote. The auth
    /// handshake itself is never intercepted, or we would recurse; `None` asks for
    /// authentication first.
    pub fn before_connect(&self, alpn: &[u8]) -> (outcome: Option<BeforeConnectOutcome>)
        ensures
            outcome is None <==> alpn@ != ALPN@,
            outcome matches Some(o) ==> o is Accept,
    {
        if bytes_eq(alpn, ALPN.as_slice()) {
            Some(BeforeConnectOutcome::Accept)
        } else {
            None
        }
    }
}

/// Background task that runs the institutional handshake and caches the result
/// per remote so repeated connections only authenticate once.
#[derive(Debug)]
pub struct OutgoingAuthTask<S, W> {
    signer: S,
    allowed_remotes: RemoteSet,
    pending_remotes: Pending<W>,
}

impl<S: InstitutionalSigner, W> OutgoingAuthTask<S, W> {
    /// The remotes towards which we have authenticated.
    pub closed spec fn allowed(&self) -> Set<Seq<u8>> {
        self.allowed_remotes@
    }

    /// The waiters for each remote with which a handshake is under way.
    pub closed spec fn pending(&self) -> Map<Seq<u8>, Seq<W>> {
        self.pending_remotes@
    }

    /// Who signs our assertions.
    pub closed spec fn signer(&self) -> S {
        self.signer
    }

    /// The signer, for a handshake that is to be started.
    pub fn signer_mut(&mut self) -> (signer: &mut S)
        ensures
            *signer == old(self).signer(),
            final(self).signer() == *final(signer),
            final(self).allowed() == old(self).allowed(),
            final(self).pending() == old(self).pending(),
    {
        &mut self.signer
    }

    /// A handle on the signer, for a handshake that is to be started.
    pub fn dialer(&self) -> (signer: S) where S: Clone
        ensures
            cloned(self.signer(), signer),
    {
        self.signer.clone()
    }

    /// Takes up a request to authenticate towards a remote: one towards which we have
    /// authenticated is answered at once, a handshake that is under way is waited for, and
    /// otherwise a new one is to be started.
    pub fn handle_request(&mut self, remote_id: &EndpointId, waiter: W) -> (request: Request<W>)
        ensures
            request == requested(old(self).allowed(), old(self).pending(), remote_id@, waiter),
            final(self).pending() == pending_after_request(
                old(self).allowed(),
                old(self).pending(),
                remote_id@,
                waiter,
            ),
            final(self).allowed() == old(self).allowed(),
            final(self).signer() == old(self).signer(),
    {
        if self.allowed_remotes.contains(remote_id) {
            return Request::Admit(waiter);
        }
        if self.pending_remotes.enqueue(remote_id, waiter) {
            Request::Dial
        } else {
            Request::Wait
        }
    }

    /// Ends a handshake: a success is remembered, and everyone who waited is told the result.
    pub fn handle_completion(&mut self, remote_id: &EndpointId, res: &AuthResult) -> (answers: Vec<
        (W, AuthResult),
    >)
        ensures
            answers@ == crate::peers::waiting(old(self).pending(), remote_id@).map_values(
                |waiter: W| (waiter, *res),
            ),
            final(self).pending() == old(self).pending().remove(remote_id@),
            final(self).allowed() == (if res is Ok {
                old(self).allowed().insert(remote_id@)
            } else {
                old(self).allowed()
            }),
            final(self).signer() == old(self).signer(),
    {
        match res {
            Ok(_) => self.allowed_remotes.insert(remote_id),
            Err(_) => {},
        }
        let waiters = self.pending_remotes.take(remote_id);
        answer_all(waiters, res)
    }
}

/// What is done on a request, given the remotes that are allowed and the waiters.
pub open spec fn requested<W>(
    allowed: Set<Seq<u8>>,
    pending: Map<Seq<u8>, Seq<W>>,
    remote: Seq<u8>,
    waiter: W,
) -> Request<W> {
    if allowed.contains(remote) {
        Request::Admit(waiter)
    } else if pending.contains_key(remote) {
        Request::Wait
    } else {
        Request::Dial
    }
}

/// The waiters after a request.
pub open spec fn pending_after_request<W>(
    allowed: Set<Seq<u8>>,
    pending: Map<Seq<u8>, Seq<W>>,
    remote: Seq<u8>,
    waiter: W,
) -> Map<Seq<u8>, Seq<W>> {
    if allowed.contains(remote) {
        pending
    } else {
        pending.insert(remote, crate::peers::waiting(pending, remote).push(waiter))
    }
}

/// The greeting that opens a handshake.
pub fn hello() -> (hello: ClientHello)
    ensures
        hello.version == PROTOCOL_VERSION,
{
    ClientHello { version: PROTOCOL_VERSION }
}

/// What an initiator sends once its signer has answered: the key, the signature and the time, or
/// the signer's error.
pub open spec fn asserted(key: Seq<u8>, answer: Signed, now: u64) -> Result<
    (Seq<u8>, Seq<u8>, u64),
    ErrorView,
> {
    match answer {
        Ok(signature) => Ok((key, signature, now)),
        Err(error) => Err(error),
    }
}

/// Puts a signer's key and answer into the third message.
pub fn client_auth(verifying_key: Vec<u8>, answer: Result<Vec<u8>, Error>, now: u64) -> (auth:
    Result<ClientAuth, Error>)
    ensures
        crate::error::outcome(auth) == asserted(
            verifying_key@,
            crate::error::outcome(answer),
            now,
        ),
{
    match answer {
        Ok(signature) => Ok(ClientAuth { verifying_key, signature, client_unix_secs: now }),
        Err(error) => Err(error),
    }
}

/// Whether `auth` is what the signer may give back to the challenge at the time `now`: the
/// version is checked first; then the transcript that binds the nonce to our endpoint id is
/// signed.
pub open spec fn may_respond<S: InstitutionalSigner>(
    signer: S,
    challenge: ServerChallenge,
    my_id: Seq<u8>,
    now: u64,
    auth: Result<(Seq<u8>, Seq<u8>, u64), ErrorView>,
) -> bool {
    if challenge.version != PROTOCOL_VERSION {
        auth == Err::<(Seq<u8>, Seq<u8>, u64), _>(ErrorView::Version(challenge.version))
    } else {
        exists|key: Seq<u8>, answer: Signed| #[trigger]
            signer.may_present(key) && #[trigger] signer.may_answer(
                crate::wire::transcript_bytes(challenge.nonce@, my_id, now),
                answer,
            ) && auth == asserted(key, answer, now)
    }
}

/// Answers a challenge at the time `now`: signs the transcript that binds the nonce to *our*
/// ephemeral endpoint id.
pub fn respond_at<S: InstitutionalSigner>(
    signer: &mut S,
    challenge: &ServerChallenge,
    my_id: &EndpointId,
    now: u64,
) -> (auth: Result<ClientAuth, Error>)
    ensures
        may_respond(*old(signer), *challenge, my_id@, now, crate::error::outcome(auth)),
        forall|key: Seq<u8>| #[trigger]
            final(signer).may_present(key) <==> old(signer).may_present(key),
        forall|asked: Seq<u8>, given: Signed| #[trigger]
            final(signer).may_answer(asked, given) <==> old(signer).may_answer(asked, given),
{
    if challenge.version != PROTOCOL_VERSION {
        return Err(Error::Version(challenge.version));
    }
    let message = transcript(&challenge.nonce, my_id, now);
    let answer = signer.sign(message.as_slice());
    let key = signer.verifying_key();
    let ghost given = crate::error::outcome(answer);
    let ghost shown = key@;
    assert(old(signer).may_present(shown));
    assert(old(signer).may_answer(
        crate::wire::transcript_bytes(challenge.nonce@, my_id@, now),
        given,
    ));
    client_auth(key, answer, now)
}

/// Answers a challenge now.
pub fn respond<S: InstitutionalSigner>(
    signer: &mut S,
    challenge: &ServerChallenge,
    my_id: &EndpointId,
) -> (auth: Result<ClientAuth, Error>)
    ensures
        exists|at: SystemTime|
            crate::util::clock_gave(at) && may_respond(
                *old(signer),
                *challenge,
                my_id@,
                #[trigger] crate::util::secs_at(at),
                crate::error::outcome(auth),
            ),
        forall|key: Seq<u8>| #[trigger]
            final(signer).may_present(key) <==> old(signer).may_present(key),
        forall|asked: Seq<u8>, given: Signed| #[trigger]
            final(signer).may_answer(asked, given) <==> old(signer).may_answer(asked, given),
{
    let now: u64 = unix_secs();
    respond_at(signer, challenge, my_id, now)
}

/// How a connection came to its end.
#[derive(Debug)]
pub struct ConnectionClosed {
    /// The code with which the peer's application closed it, if it was that.
    pub application_code: Option<u64>,
    /// What the transport says of it.
    pub text: String,
}

/// What the end of the connection says of us: the acceptor signals its verdict by the close code;
/// any other code, and any other end, is a transport error. `None` is acceptance.
pub open spec fn verdict_by_close(closed: ConnectionClosed) -> Option<ErrorView> {
    match closed.application_code {
        Some(code) if code == CLOSE_ACCEPTED => None,
        Some(code) if code == CLOSE_DENIED => Some(
            ErrorView::Denied("rejected by remote acceptor"@),
        ),
        _ => Some(ErrorView::Transport(closed.text@)),
    }
}

/// Reads the acceptor's verdict off the end of the connection.
pub fn close_verdict(closed: ConnectionClosed) -> (result: Result<(), Error>)
    ensures
        result is Ok <==> verdict_by_close(closed) is None,
        result matches Err(error) ==> verdict_by_close(closed) == Some(error@),
{
    if let Some(code) = closed.application_code {
        if code == CLOSE_ACCEPTED as u64 {
            return Ok(());
        } else if code == CLOSE_DENIED as u64 {
            return Err(Error::Denied("rejected by remote acceptor".to_owned()));
        }
    }
    Err(transport(closed.text))
}

} // verus!
