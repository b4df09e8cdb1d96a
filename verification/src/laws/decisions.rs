//! What each decision gives for what it is given, case by case.

use crate::bytes;
use crate::error::{Error, ErrorView};
use crate::hyde;
use crate::incoming::{
    AfterHandshakeOutcome, AuthProtocol, Authenticated, Challenged, Close, IncomingAuthHook,
};
use crate::laws::freshness;
use crate::mutual;
use crate::mutual::{
    MutualAuthHook, MutualAuthProtocol, MutualAuthTask, MutualChallenged, MutualGreeting,
    MutualStep,
};
use crate::outgoing;
use crate::outgoing::{BeforeConnectOutcome, ConnectionClosed, OutgoingAuthTask};
use crate::peers::{AuthResult, Request};
use crate::signer::{HydeSigner, InstitutionalSigner, Signed};
use crate::ssh_agent::SshVerifier;
use crate::trust::{HydeVerifier, InstitutionVerifier, Verdict, VerifyError};
use crate::util;
use crate::wire;
use crate::wire::{
    ClientAuth, EndpointId, MutualChallenge, MutualHello, MutualResponse, Nonce, ServerChallenge,
};
use hyde_tee::{FallbackPolicy, HydeContext, SigningAlgorithm, WrappedSigningKey};
use std::time::SystemTime;
use vstd::prelude::*;

verus! {

/// What a verifier of ML-DSA keys answers: untrusted, if the key is not on its roster; a crypto
/// error, if the key has not the length of the parameter set; bad, if the signature does not
/// verify; and otherwise the key's label.
pub proof fn hyde_verifier_decides(
    verifier: HydeVerifier,
    key: &[u8],
    message: &[u8],
    signature: &[u8],
    answer: Result<String, VerifyError>,
)
    requires
        call_ensures(
            <HydeVerifier as InstitutionVerifier>::verify,
            (&verifier, key, message, signature),
            answer,
        ),
    ensures
        ({
            let known = verifier.roster().contains_key(key@);
            let len: nat = match verifier.algorithm() {
                SigningAlgorithm::MlDsa44 => 1312,
                SigningAlgorithm::MlDsa65 => 1952,
                SigningAlgorithm::MlDsa87 => 2592,
            };
            let good = hyde::ml_dsa_verifies(
                verifier.algorithm(),
                key@,
                message@,
                signature@,
            );
            match answer {
                Ok(label) => known && key@.len() == len && good && label@
                    == verifier.roster()[key@],
                Err(VerifyError::UntrustedKey) => !known,
                Err(VerifyError::Crypto(text)) => known && key@.len() != len && text@
                    == "Invalid key material"@,
                Err(VerifyError::BadSignature) => known && key@.len() == len && !good,
                Err(VerifyError::Revoked) => false,
            }
        }),
{
}

/// What a verifier of ed25519 keys answers: untrusted, if the key is not on its roster; a crypto
/// error, if it is no public key; bad, if the signature has not 64 bytes or does not verify; and
/// otherwise the key's label.
pub proof fn ssh_verifier_decides(
    verifier: SshVerifier,
    key: &[u8],
    message: &[u8],
    signature: &[u8],
    answer: Result<String, VerifyError>,
)
    requires
        call_ensures(
            <SshVerifier as InstitutionVerifier>::verify,
            (&verifier, key, message, signature),
            answer,
        ),
    ensures
        ({
            let known = verifier.roster().contains_key(key@);
            let decodes = crate::ed25519::ed25519_decodes(key@);
            let good = signature@.len() == 64 && crate::ed25519::ed25519_verifies(
                key@,
                message@,
                signature@,
            );
            match answer {
                Ok(label) => known && key@.len() == 32 && decodes && good && label@
                    == verifier.roster()[key@],
                Err(VerifyError::UntrustedKey) => !known,
                Err(VerifyError::Crypto(text)) => known && if key@.len() != 32 {
                    text@ == "ed25519 key must be 32 bytes"@
                } else {
                    !decodes && text@ == "signature error"@
                },
                Err(VerifyError::BadSignature) => known && key@.len() == 32 && decodes && !good,
                Err(VerifyError::Revoked) => false,
            }
        }),
{
}

/// What a verifier may answer is what its decision gives: the answers that the handshakes speak of
/// are those of [`hyde_verifier_decides`] and [`ssh_verifier_decides`].
pub proof fn verifiers_answer_as_they_decide(
    hyde_verifier: HydeVerifier,
    ssh_verifier: SshVerifier,
    key: Seq<u8>,
    message: Seq<u8>,
    signature: Seq<u8>,
    answer: Verdict,
)
    ensures
        hyde_verifier.may_answer(key, message, signature, answer) && answer is Ok
            ==> hyde_verifier.roster().contains_key(key) && hyde::ml_dsa_verifies(
            hyde_verifier.algorithm(),
            key,
            message,
            signature,
        ) && answer->Ok_0 == hyde_verifier.roster()[key],
        hyde_verifier.may_answer(key, message, signature, answer) && answer is Err ==> (
        !hyde_verifier.roster().contains_key(key) || key.len() != hyde::verifying_key_len(
            hyde_verifier.algorithm(),
        ) || !hyde::ml_dsa_verifies(hyde_verifier.algorithm(), key, message, signature)),
        ssh_verifier.may_answer(key, message, signature, answer) && answer is Ok
            ==> ssh_verifier.roster().contains_key(key) && crate::ed25519::ed25519_verifies(
            key,
            message,
            signature,
        ) && answer->Ok_0 == ssh_verifier.roster()[key],
        ssh_verifier.may_answer(key, message, signature, answer) && answer is Err ==> (
        !ssh_verifier.roster().contains_key(key) || key.len() != 32
            || !crate::ed25519::ed25519_decodes(key) || signature.len() != 64
            || !crate::ed25519::ed25519_verifies(key, message, signature)),
{
}

/// A signer hands on what its backend gives for its key and the very message: a signature exactly
/// if the backend gave one, and otherwise the backend's words; whatever the parameter set.
pub proof fn signer_hands_on_what_the_backend_gives(
    signer: &mut HydeSigner,
    message: &[u8],
    answer: Result<Vec<u8>, Error>,
)
    requires
        call_ensures(<HydeSigner as InstitutionalSigner>::sign, (signer, message), answer),
    ensures
        match answer {
            Ok(signature) => old(signer).backend_gave(message@, Ok(signature@)) && (old(
                signer,
            ).holds_its_key() ==> hyde::ml_dsa_verifies(
                old(signer).algorithm(),
                old(signer).key(),
                message@,
                signature@,
            )),
            Err(Error::Signer(text)) => old(signer).backend_gave(message@, Err(text@)),
            Err(_) => false,
        },
        final(signer).key() == old(signer).key(),
        final(signer).sealed() == old(signer).sealed(),
        final(signer).holds_its_key() == old(signer).holds_its_key(),
{
}

/// What a signer may answer when it is asked in a handshake is what its backend gave for its key
/// and the message.
pub proof fn signer_answers_come_from_the_backend(
    signer: HydeSigner,
    message: Seq<u8>,
    answer: Signed,
)
    requires
        signer.may_answer(message, answer),
    ensures
        match answer {
            Ok(signature) => signer.backend_gave(message, Ok(signature)),
            Err(ErrorView::Signer(text)) => signer.backend_gave(message, Err(text)),
            Err(_) => false,
        },
{
}

/// A signer publishes the verifying key of the sealed key that it was made from.
pub proof fn signer_publishes_its_key(signer: HydeSigner, key: Vec<u8>)
    requires
        call_ensures(<HydeSigner as InstitutionalSigner>::verifying_key, (&signer,), key),
    ensures
        key@ == signer.key(),
{
}

/// A new signer has the ML-DSA-65 key that a context made which hyde found under the policy asked
/// for; there is none exactly if hyde found no context or that made no key, and then hyde's words
/// are handed on.
pub proof fn new_signers_come_from_hyde(
    fallback: FallbackPolicy,
    made: Result<HydeSigner, Error>,
)
    requires
        call_ensures(HydeSigner::generate, (fallback,), made),
    ensures
        exists|detected: Result<HydeContext, String>| #[trigger]
            hyde::detection_gave(fallback, detected) && match detected {
                Err(text) => made matches Err(Error::Signer(words)) && words == text,
                Ok(ctx) => exists|key: Result<WrappedSigningKey, String>| #[trigger]
                    hyde::generation_gave(ctx, SigningAlgorithm::MlDsa65, key) && match key {
                        Err(text) => made matches Err(Error::Signer(words)) && words == text,
                        Ok(k) => made matches Ok(signer) && signer.sealed() == k,
                    },
            },
        made matches Ok(signer) ==> signer.algorithm() == SigningAlgorithm::MlDsa65
            && signer.key().len() == 1952 && signer.holds_its_key() && (fallback is Deny
            ==> signer.backend() is Tpm),
{
}

/// A rebuilt signer has the key that it is given.
pub proof fn rebuilt_signers_have_their_key(
    ctx: HydeContext,
    key: WrappedSigningKey,
    signer: HydeSigner,
)
    requires
        call_ensures(HydeSigner::from_parts, (ctx, key), signer),
    ensures
        signer.sealed() == key,
        signer.key() == key.verifying_key@,
        signer.algorithm() == key.algorithm,
        signer.holds_its_key() <==> hyde::opened_keys(ctx).contains(
            (key.algorithm, key.verifying_key@, key.wrapping_key.blob@, key.sealed_signing_key@),
        ),
        forall|message: Seq<u8>, answer: Result<Seq<u8>, Seq<char>>| #[trigger]
            signer.backend_gave(message, answer) <==> hyde::signing_gave(
                hyde::opened_keys(ctx),
                key,
                message,
                answer,
            ),
{
}

/// What the acceptor makes of an assertion: a clock-skew error if its time is too far from that of
/// the challenge; and otherwise what the verifier says of the key and the signature for the
/// transcript of the acceptor's nonce, the remote's id and the assertion's time. A label admits the
/// remote, and a refusal denies it, in the refusal's words.
pub proof fn acceptor_decides<V: InstitutionVerifier>(
    protocol: AuthProtocol<V>,
    session: Challenged,
    auth: ClientAuth,
    remote: EndpointId,
    result: Result<Authenticated, Error>,
)
    requires
        call_ensures(
            AuthProtocol::<V>::run_handshake,
            (&protocol, session, &auth, &remote),
            result,
        ),
    ensures
        if freshness::too_far_apart(protocol.max_skew(), session.time(), auth.client_unix_secs) {
            result matches Err(Error::ClockSkew)
        } else {
            exists|answer: Verdict| #[trigger]
                protocol.judge().may_answer(
                    auth.verifying_key@,
                    wire::transcript_bytes(session.nonce(), remote@, auth.client_unix_secs),
                    auth.signature@,
                    answer,
                ) && match (result, answer) {
                    (Ok(authenticated), Ok(label)) => authenticated@.0 == remote@
                        && authenticated@.1 == label,
                    (Err(Error::Denied(text)), Err(reason)) => text@ == reason.message(),
                    _ => false,
                }
        },
{
}

/// What the acceptor of a mutual handshake makes of an assertion: the same, for the transcript of
/// the initiator's role, and with its own time in place of that of the challenge.
pub proof fn mutual_acceptor_decides<V: InstitutionVerifier>(
    protocol: MutualAuthProtocol<V>,
    session: MutualChallenged,
    response: MutualResponse,
    remote: EndpointId,
    now: u64,
    result: Result<Authenticated, Error>,
)
    requires
        call_ensures(
            MutualAuthProtocol::<V>::handshake_at,
            (&protocol, session, &response, &remote, now),
            result,
        ),
    ensures
        if freshness::too_far_apart(protocol.max_skew(), now, response.initiator_unix_secs) {
            result matches Err(Error::ClockSkew)
        } else {
            exists|answer: Verdict| #[trigger]
                protocol.judge().may_answer(
                    response.verifying_key@,
                    wire::mutual_transcript_bytes(
                        1,
                        session.nonce(),
                        remote@,
                        response.initiator_unix_secs,
                    ),
                    response.signature@,
                    answer,
                ) && match (result, answer) {
                    (Ok(authenticated), Ok(label)) => authenticated@.0 == remote@
                        && authenticated@.1 == label,
                    (Err(Error::Denied(text)), Err(reason)) => text@ == reason.message(),
                    _ => false,
                }
        },
{
}

/// Who is let in after a handshake, and how the connection is closed: an admitted remote joins
/// those that are let in and is told so by code 1; after a refusal nothing changes, and the code
/// is 403.
pub proof fn acceptor_records_and_closes<V: InstitutionVerifier>(
    protocol: AuthProtocol<V>,
    hook: &mut IncomingAuthHook,
    result: Result<Authenticated, Error>,
    close: Close,
)
    requires
        call_ensures(AuthProtocol::<V>::accept, (&protocol, hook, &result), close),
    ensures
        match result {
            Ok(authenticated) => {
                &&& final(hook).allowed() == old(hook).allowed().insert(authenticated@.0)
                &&& close.code == 1
                &&& close.reason@ == bytes::ascii("accepted"@)
            },
            Err(_) => {
                &&& final(hook).allowed() == old(hook).allowed()
                &&& close.code == 403
                &&& close.reason@ == bytes::ascii("denied"@)
            },
        },
{
}

/// The same for the acceptor of a mutual handshake.
pub proof fn mutual_acceptor_records_and_closes<V: InstitutionVerifier>(
    protocol: MutualAuthProtocol<V>,
    hook: &mut MutualAuthHook,
    result: Result<Authenticated, Error>,
    close: Close,
)
    requires
        call_ensures(MutualAuthProtocol::<V>::accept, (&protocol, hook, &result), close),
    ensures
        final(hook).local() == old(hook).local(),
        match result {
            Ok(authenticated) => {
                &&& final(hook).allowed() == old(hook).allowed().insert(authenticated@.0)
                &&& close.code == 1
                &&& close.reason@ == bytes::ascii("accepted"@)
            },
            Err(_) => {
                &&& final(hook).allowed() == old(hook).allowed()
                &&& close.code == 403
                &&& close.reason@ == bytes::ascii("denied"@)
            },
        },
{
}

/// Which connections are let through: those on the auth ALPN, and those of remotes that are let in.
pub proof fn hooks_let_through(
    hook: IncomingAuthHook,
    mutual_hook: MutualAuthHook,
    alpn: &[u8],
    remote: EndpointId,
    outcome: AfterHandshakeOutcome,
    mutual_outcome: AfterHandshakeOutcome,
)
    requires
        call_ensures(IncomingAuthHook::after_handshake, (&hook, alpn, &remote), outcome),
        call_ensures(
            MutualAuthHook::after_handshake,
            (&mutual_hook, alpn, &remote),
            mutual_outcome,
        ),
    ensures
        match outcome {
            AfterHandshakeOutcome::Accept => alpn@ == bytes::ascii("iroh-hyde-auth/0"@)
                || hook.allowed().contains(remote@),
            AfterHandshakeOutcome::Reject { error_code, reason } => alpn@ != bytes::ascii(
                "iroh-hyde-auth/0"@,
            ) && !hook.allowed().contains(remote@) && error_code == 403 && reason@ == bytes::ascii(
                "not authenticated"@,
            ),
        },
        match mutual_outcome {
            AfterHandshakeOutcome::Accept => alpn@ == bytes::ascii("iroh-hyde-auth/mutual/0"@)
                || mutual_hook.allowed().contains(remote@),
            AfterHandshakeOutcome::Reject { error_code, reason } => alpn@ != bytes::ascii(
                "iroh-hyde-auth/mutual/0"@,
            ) && !mutual_hook.allowed().contains(remote@) && error_code == 403 && reason@
                == bytes::ascii("not mutually authenticated"@),
        },
{
    crate::laws::messages::names_are_ascii_texts();
}

/// What an initiator answers to a challenge: a version error if it speaks another version; and
/// otherwise its key, the signer's signature for the transcript of the challenge's nonce and its
/// own id, and the time, or the signer's error.
pub proof fn initiator_responds<S: InstitutionalSigner>(
    signer: &mut S,
    challenge: ServerChallenge,
    my_id: EndpointId,
    now: u64,
    auth: Result<ClientAuth, Error>,
)
    requires
        call_ensures(outgoing::respond_at::<S>, (signer, &challenge, &my_id, now), auth),
    ensures
        if challenge.version != 0 {
            auth matches Err(Error::Version(v)) && v == challenge.version
        } else {
            exists|key: Seq<u8>, answer: Signed| #[trigger]
                old(signer).may_present(key) && #[trigger] old(signer).may_answer(
                    wire::transcript_bytes(challenge.nonce@, my_id@, now),
                    answer,
                ) && match (auth, answer) {
                    (Ok(a), Ok(signature)) => a.verifying_key@ == key && a.signature@ == signature
                        && a.client_unix_secs == now,
                    (Err(error), Err(said)) => error@ == said,
                    _ => false,
                }
        },
{
    if challenge.version == 0 {
        let (key, answer) = choose|key: Seq<u8>, answer: Signed| #[trigger]
            old(signer).may_present(key) && #[trigger] old(signer).may_answer(
                wire::transcript_bytes(challenge.nonce@, my_id@, now),
                answer,
            ) && crate::error::outcome(auth) == outgoing::asserted(key, answer, now);
        assert(old(signer).may_present(key));
        assert(old(signer).may_answer(
            wire::transcript_bytes(challenge.nonce@, my_id@, now),
            answer,
        ));
    }
}

/// What the acceptor of a mutual handshake answers to a greeting: a version error if it speaks
/// another version; and otherwise its nonce, its key, the signer's signature for the transcript of
/// the acceptor's role, the initiator's nonce and its own id, and the time, or the signer's error.
pub proof fn mutual_acceptor_challenges<S: InstitutionalSigner, V: InstitutionVerifier>(
    protocol: MutualAuthProtocol<V>,
    signer: &mut S,
    local_id: EndpointId,
    hello: MutualHello,
    nonce: Nonce,
    now: u64,
    made: Result<(MutualChallenge, MutualChallenged), Error>,
)
    requires
        call_ensures(
            MutualAuthProtocol::<V>::challenge_at::<S>,
            (&protocol, signer, &local_id, &hello, nonce, now),
            made,
        ),
    ensures
        if hello.version != 0 {
            made matches Err(Error::Version(v)) && v == hello.version
        } else {
            exists|key: Seq<u8>, answer: Signed| #[trigger]
                old(signer).may_present(key) && #[trigger] old(signer).may_answer(
                    wire::mutual_transcript_bytes(2, hello.nonce@, local_id@, now),
                    answer,
                ) && match (made, answer) {
                    (Ok((c, session)), Ok(signature)) => {
                        &&& c.version == 0
                        &&& c.nonce@ == nonce@
                        &&& c.verifying_key@ == key
                        &&& c.signature@ == signature
                        &&& c.acceptor_unix_secs == now
                        &&& session.nonce() == nonce@
                    },
                    (Err(error), Err(said)) => error@ == said,
                    _ => false,
                }
        },
{
    if hello.version == 0 {
        let (key, answer) = choose|key: Seq<u8>, answer: Signed| #[trigger]
            old(signer).may_present(key) && #[trigger] old(signer).may_answer(
                wire::mutual_transcript_bytes(2, hello.nonce@, local_id@, now),
                answer,
            ) && mutual::challenge_view(made) == mutual::mutual_challenge(nonce@, key, answer, now);
        assert(old(signer).may_present(key));
        assert(old(signer).may_answer(
            wire::mutual_transcript_bytes(2, hello.nonce@, local_id@, now),
            answer,
        ));
    }
}

/// When an initiator of a mutual handshake turns the acceptor down, and how: for another version,
/// for a time too far from its own, or for what its verifier says of the acceptor's key and
/// signature for the transcript of the acceptor's role, the initiator's nonce and the peer's id. It
/// closes the connection with code 403.
pub proof fn mutual_initiator_checks<V: InstitutionVerifier>(
    greeting: MutualGreeting,
    judge: V,
    max_skew: Option<u64>,
    challenge: MutualChallenge,
    peer: EndpointId,
    checked: u64,
    refused: Option<MutualStep>,
)
    requires
        call_ensures(
            MutualGreeting::check_at::<V>,
            (&greeting, &judge, max_skew, &challenge, &peer, checked),
            refused,
        ),
    ensures
        refused matches Some(step) ==> (step matches MutualStep::Abort { close: Some(close), error }
            && close.code == 403),
        if challenge.version != 0 {
            refused matches Some(MutualStep::Abort { close: Some(close), error }) && error@
                == ErrorView::Version(challenge.version) && close.reason@ == bytes::ascii(
                "version"@,
            )
        } else if freshness::too_far_apart(max_skew, checked, challenge.acceptor_unix_secs) {
            refused matches Some(MutualStep::Abort { close: Some(close), error }) && error@
                == ErrorView::ClockSkew && close.reason@ == bytes::ascii("skew"@)
        } else {
            exists|answer: Verdict| #[trigger]
                judge.may_answer(
                    challenge.verifying_key@,
                    wire::mutual_transcript_bytes(
                        2,
                        greeting.nonce(),
                        peer@,
                        challenge.acceptor_unix_secs,
                    ),
                    challenge.signature@,
                    answer,
                ) && match answer {
                    Ok(_) => refused is None,
                    Err(reason) => refused matches Some(
                        MutualStep::Abort { close: Some(close), error },
                    ) && error@ == ErrorView::Denied(
                        "acceptor failed verification: "@ + reason.message(),
                    ) && close.reason@ == bytes::ascii("peer-untrusted"@),
                }
        },
{
}

/// What an initiator of a mutual handshake sends to an acceptor that it has verified: its key, the
/// signer's signature for the transcript of the initiator's role, the acceptor's nonce and its own
/// id, and the time; or it gives up with the signer's error, without a close frame.
pub proof fn mutual_initiator_proves<S: InstitutionalSigner>(
    signer: &mut S,
    peer_nonce: Nonce,
    my_id: EndpointId,
    now: u64,
    step: MutualStep,
)
    requires
        call_ensures(mutual::prove_at::<S>, (signer, &peer_nonce, &my_id, now), step),
    ensures
        exists|key: Seq<u8>, answer: Signed| #[trigger]
            old(signer).may_present(key) && #[trigger] old(signer).may_answer(
                wire::mutual_transcript_bytes(1, peer_nonce@, my_id@, now),
                answer,
            ) && match (step, answer) {
                (MutualStep::Respond(r), Ok(signature)) => r.verifying_key@ == key && r.signature@
                    == signature && r.initiator_unix_secs == now,
                (MutualStep::Abort { close: None, error }, Err(said)) => error@ == said,
                _ => false,
            },
{
    let (key, answer) = choose|key: Seq<u8>, answer: Signed| #[trigger]
        old(signer).may_present(key) && #[trigger] old(signer).may_answer(
            wire::mutual_transcript_bytes(1, peer_nonce@, my_id@, now),
            answer,
        ) && step@ == mutual::response_step(key, answer, now);
    assert(old(signer).may_present(key));
    assert(old(signer).may_answer(
        wire::mutual_transcript_bytes(1, peer_nonce@, my_id@, now),
        answer,
    ));
}

/// The end of a connection: success is code 1 and no other, a denial is code 403 and no other, and
/// everything else is a transport error in the transport's words.
pub proof fn close_codes_are_told_apart(closed: ConnectionClosed, result: Result<(), Error>)
    requires
        call_ensures(outgoing::close_verdict, (closed,), result),
    ensures
        match result {
            Ok(_) => closed.application_code == Some(1u64),
            Err(Error::Denied(text)) => closed.application_code == Some(403u64) && text@
                == "rejected by remote acceptor"@,
            Err(Error::Transport(text)) => closed.application_code != Some(1u64)
                && closed.application_code != Some(403u64) && text@ == closed.text@,
            Err(_) => false,
        },
{
}

/// What the authenticator's reply means: no reply is that it has stopped, a failure denies in the
/// failure's words, and a connection is dialed after a success and not otherwise.
pub proof fn replies_decide_the_dial(
    reply: Option<AuthResult>,
    result: Result<(), Error>,
    outcome: BeforeConnectOutcome,
)
    requires
        call_ensures(outgoing::settle, (reply,), result),
        call_ensures(outgoing::connect_outcome, (&result,), outcome),
    ensures
        match reply {
            None => result matches Err(Error::AuthenticatorStopped),
            Some(Ok(_)) => result is Ok,
            Some(Err(failure)) => result matches Err(Error::Denied(text)) && text@
                == failure@.message(),
        },
        outcome is Accept <==> (reply matches Some(answer) && answer is Ok),
{
}

/// What a request to authenticate towards a remote gives: it goes on at once if the remote is
/// allowed, waits if a handshake with it is under way, and starts one otherwise; one who waits is
/// put down behind those who wait for the same remote, and nothing else changes.
pub proof fn requests_are_taken_up<S: InstitutionalSigner, W>(
    task: &mut OutgoingAuthTask<S, W>,
    remote: EndpointId,
    waiter: W,
    request: Request<W>,
)
    requires
        call_ensures(
            OutgoingAuthTask::<S, W>::handle_request,
            (task, &remote, waiter),
            request,
        ),
    ensures
        final(task).allowed() == old(task).allowed(),
        final(task).signer() == old(task).signer(),
        ({
            let (allowed, before, after) = (
                old(task).allowed(),
                old(task).pending(),
                final(task).pending(),
            );
            match request {
                Request::Admit(w) => allowed.contains(remote@) && w == waiter && after == before,
                Request::Wait => !allowed.contains(remote@) && before.contains_key(remote@) && after
                    == before.insert(remote@, before[remote@].push(waiter)),
                Request::Dial => !allowed.contains(remote@) && !before.contains_key(remote@)
                    && after == before.insert(remote@, seq![waiter]),
            }
        }),
{
    assert(Seq::<W>::empty().push(waiter) =~= seq![waiter]);
}

/// The same in the mutual handshake, where the allowed remotes are those of the hook.
pub proof fn mutual_requests_are_taken_up<S: InstitutionalSigner, V: InstitutionVerifier, W>(
    task: &mut MutualAuthTask<S, V, W>,
    hook: MutualAuthHook,
    remote: EndpointId,
    waiter: W,
    request: Request<W>,
)
    requires
        call_ensures(
            MutualAuthTask::<S, V, W>::handle_request,
            (task, &hook, &remote, waiter),
            request,
        ),
    ensures
        final(task).signer() == old(task).signer(),
        final(task).judge() == old(task).judge(),
        final(task).max_skew() == old(task).max_skew(),
        ({
            let (allowed, before, after) = (
                hook.allowed(),
                old(task).pending(),
                final(task).pending(),
            );
            match request {
                Request::Admit(w) => allowed.contains(remote@) && w == waiter && after == before,
                Request::Wait => !allowed.contains(remote@) && before.contains_key(remote@) && after
                    == before.insert(remote@, before[remote@].push(waiter)),
                Request::Dial => !allowed.contains(remote@) && !before.contains_key(remote@)
                    && after == before.insert(remote@, seq![waiter]),
            }
        }),
{
    assert(Seq::<W>::empty().push(waiter) =~= seq![waiter]);
}

/// What the end of a handshake does: everyone who waited is told its result, once and in order;
/// nobody waits for the remote any more; it is allowed from then on exactly if it was or the
/// handshake succeeded.
pub proof fn completions_are_told<S: InstitutionalSigner, W>(
    task: &mut OutgoingAuthTask<S, W>,
    remote: EndpointId,
    res: AuthResult,
    answers: Vec<(W, AuthResult)>,
)
    requires
        call_ensures(
            OutgoingAuthTask::<S, W>::handle_completion,
            (task, &remote, &res),
            answers,
        ),
    ensures
        final(task).signer() == old(task).signer(),
        answers@.len() == (if old(task).pending().contains_key(remote@) {
            old(task).pending()[remote@].len()
        } else {
            0
        }),
        forall|i: int|
            0 <= i < answers@.len() ==> (#[trigger] answers@[i]).0 == old(
                task,
            ).pending()[remote@][i] && answers@[i].1 == res,
        final(task).pending() == old(task).pending().remove(remote@),
        forall|id: Seq<u8>| #[trigger]
            final(task).allowed().contains(id) <==> old(task).allowed().contains(id) || (res is Ok
                && id == remote@),
{
}

/// The same in the mutual handshake.
pub proof fn mutual_completions_are_told<S: InstitutionalSigner, V: InstitutionVerifier, W>(
    task: &mut MutualAuthTask<S, V, W>,
    hook: &mut MutualAuthHook,
    remote: EndpointId,
    res: AuthResult,
    answers: Vec<(W, AuthResult)>,
)
    requires
        call_ensures(
            MutualAuthTask::<S, V, W>::handle_completion,
            (task, hook, &remote, &res),
            answers,
        ),
    ensures
        final(task).signer() == old(task).signer(),
        final(task).judge() == old(task).judge(),
        final(task).max_skew() == old(task).max_skew(),
        answers@.len() == (if old(task).pending().contains_key(remote@) {
            old(task).pending()[remote@].len()
        } else {
            0
        }),
        forall|i: int|
            0 <= i < answers@.len() ==> (#[trigger] answers@[i]).0 == old(
                task,
            ).pending()[remote@][i] && answers@[i].1 == res,
        final(task).pending() == old(task).pending().remove(remote@),
        final(hook).local() == old(hook).local(),
        forall|id: Seq<u8>| #[trigger]
            final(hook).allowed().contains(id) <==> old(hook).allowed().contains(id) || (res is Ok
                && id == remote@),
{
}

/// What an initiator answers now is what it answers at a time that its clock read.
pub proof fn initiator_responds_now<S: InstitutionalSigner>(
    signer: &mut S,
    challenge: ServerChallenge,
    my_id: EndpointId,
    auth: Result<ClientAuth, Error>,
)
    requires
        call_ensures(outgoing::respond::<S>, (signer, &challenge, &my_id), auth),
    ensures
        if challenge.version != 0 {
            auth matches Err(Error::Version(v)) && v == challenge.version
        } else {
            exists|now: u64, key: Seq<u8>, answer: Signed| #[trigger]
                freshness::read_off_the_clock(now) && #[trigger] old(signer).may_present(key)
                    && #[trigger] old(signer).may_answer(
                    wire::transcript_bytes(challenge.nonce@, my_id@, now),
                    answer,
                ) && match (auth, answer) {
                    (Ok(a), Ok(signature)) => a.verifying_key@ == key && a.signature@ == signature
                        && a.client_unix_secs == now,
                    (Err(error), Err(said)) => error@ == said,
                    _ => false,
                }
        },
{
    let at = choose|at: SystemTime|
        util::clock_gave(at) && outgoing::may_respond(
            *old(signer),
            challenge,
            my_id@,
            #[trigger] util::secs_at(at),
            crate::error::outcome(auth),
        );
    let now = util::secs_at(at);
    assert(util::since_epoch(at) is None || util::since_epoch(at) is Some);
    assert(freshness::read_off_the_clock(now));
    if challenge.version == 0 {
        let (key, answer) = choose|key: Seq<u8>, answer: Signed| #[trigger]
            old(signer).may_present(key) && #[trigger] old(signer).may_answer(
                wire::transcript_bytes(challenge.nonce@, my_id@, now),
                answer,
            ) && crate::error::outcome(auth) == outgoing::asserted(key, answer, now);
        assert(old(signer).may_present(key));
        assert(old(signer).may_answer(
            wire::transcript_bytes(challenge.nonce@, my_id@, now),
            answer,
        ));
    }
}

/// What the acceptor of a mutual handshake answers now is what it answers at a time that its clock
/// read, with a nonce that the random generator gave.
pub proof fn mutual_acceptor_challenges_now<S: InstitutionalSigner, V: InstitutionVerifier>(
    protocol: MutualAuthProtocol<V>,
    signer: &mut S,
    local_id: EndpointId,
    hello: MutualHello,
    made: Result<(MutualChallenge, MutualChallenged), Error>,
)
    requires
        call_ensures(
            MutualAuthProtocol::<V>::challenge::<S>,
            (&protocol, signer, &local_id, &hello),
            made,
        ),
    ensures
        if hello.version != 0 {
            made matches Err(Error::Version(v)) && v == hello.version
        } else {
            exists|now: u64, key: Seq<u8>, answer: Signed| #[trigger]
                freshness::read_off_the_clock(now) && #[trigger] old(signer).may_present(key)
                    && #[trigger] old(signer).may_answer(
                    wire::mutual_transcript_bytes(2, hello.nonce@, local_id@, now),
                    answer,
                ) && match (made, answer) {
                    (Ok((c, session)), Ok(signature)) => {
                        &&& c.version == 0
                        &&& util::drawn(c.nonce@)
                        &&& c.verifying_key@ == key
                        &&& c.signature@ == signature
                        &&& c.acceptor_unix_secs == now
                        &&& session.nonce() == c.nonce@
                    },
                    (Err(error), Err(said)) => error@ == said,
                    _ => false,
                }
        },
{
    let (nonce, at) = choose|nonce: Seq<u8>, at: SystemTime|
        util::drawn(nonce) && util::clock_gave(at) && #[trigger] mutual::may_challenge(
            *old(signer),
            local_id@,
            hello,
            nonce,
            util::secs_at(at),
            mutual::challenge_view(made),
        );
    let now = util::secs_at(at);
    assert(util::since_epoch(at) is None || util::since_epoch(at) is Some);
    assert(freshness::read_off_the_clock(now));
    if hello.version == 0 {
        let (key, answer) = choose|key: Seq<u8>, answer: Signed| #[trigger]
            old(signer).may_present(key) && #[trigger] old(signer).may_answer(
                wire::mutual_transcript_bytes(2, hello.nonce@, local_id@, now),
                answer,
            ) && mutual::challenge_view(made) == mutual::mutual_challenge(nonce, key, answer, now);
        assert(old(signer).may_present(key));
        assert(old(signer).may_answer(
            wire::mutual_transcript_bytes(2, hello.nonce@, local_id@, now),
            answer,
        ));
    }
}

/// What the acceptor of a mutual handshake decides now is what it decides at a time that its clock
/// read.
pub proof fn mutual_acceptor_decides_now<V: InstitutionVerifier>(
    protocol: MutualAuthProtocol<V>,
    session: MutualChallenged,
    response: MutualResponse,
    remote: EndpointId,
    result: Result<Authenticated, Error>,
)
    requires
        call_ensures(
            MutualAuthProtocol::<V>::handshake,
            (&protocol, session, &response, &remote),
            result,
        ),
    ensures
        exists|now: u64|
            #![trigger freshness::read_off_the_clock(now)]
            freshness::read_off_the_clock(now) && if freshness::too_far_apart(
                protocol.max_skew(),
                now,
                response.initiator_unix_secs,
            ) {
                result matches Err(Error::ClockSkew)
            } else {
                exists|answer: Verdict| #[trigger]
                    protocol.judge().may_answer(
                        response.verifying_key@,
                        wire::mutual_transcript_bytes(
                            1,
                            session.nonce(),
                            remote@,
                            response.initiator_unix_secs,
                        ),
                        response.signature@,
                        answer,
                    ) && match (result, answer) {
                        (Ok(authenticated), Ok(label)) => authenticated@.0 == remote@
                            && authenticated@.1 == label,
                        (Err(Error::Denied(text)), Err(reason)) => text@ == reason.message(),
                        _ => false,
                    }
            },
{
    let at = choose|at: SystemTime|
        util::clock_gave(at) && mutual::may_conclude(
            protocol.judge(),
            protocol.max_skew(),
            session.nonce(),
            response@,
            remote@,
            #[trigger] util::secs_at(at),
            crate::error::outcome(result),
        );
    assert(util::since_epoch(at) is None || util::since_epoch(at) is Some);
    assert(freshness::read_off_the_clock(util::secs_at(at)));
}

/// What an initiator of a mutual handshake does with a challenge, at the times that its clock read:
/// it turns another version, a time too far from its own and an acceptor that its verifier refuses
/// down, by code 403; to any other it sends its key, the signer's signature for the transcript of
/// the initiator's role, the acceptor's nonce and its own id, and the time, or gives up with the
/// signer's error and without a close frame.
pub proof fn mutual_initiator_goes_on<S: InstitutionalSigner, V: InstitutionVerifier>(
    greeting: MutualGreeting,
    signer: &mut S,
    judge: V,
    max_skew: Option<u64>,
    challenge: MutualChallenge,
    peer: EndpointId,
    my_id: EndpointId,
    step: MutualStep,
)
    requires
        call_ensures(
            MutualGreeting::handshake::<S, V>,
            (greeting, signer, &judge, max_skew, &challenge, &peer, &my_id),
            step,
        ),
    ensures
        exists|checked: u64, now: u64| #[trigger]
            freshness::read_off_the_clock(checked) && #[trigger] freshness::read_off_the_clock(now)
                && if challenge.version != 0 {
                step matches MutualStep::Abort { close: Some(close), error } && close.code == 403
                    && close.reason@ == bytes::ascii("version"@) && error@ == ErrorView::Version(
                    challenge.version,
                )
            } else if freshness::too_far_apart(max_skew, checked, challenge.acceptor_unix_secs) {
                step matches MutualStep::Abort { close: Some(close), error } && close.code == 403
                    && close.reason@ == bytes::ascii("skew"@) && error@ == ErrorView::ClockSkew
            } else {
                exists|answer: Verdict| #[trigger]
                    judge.may_answer(
                        challenge.verifying_key@,
                        wire::mutual_transcript_bytes(
                            2,
                            greeting.nonce(),
                            peer@,
                            challenge.acceptor_unix_secs,
                        ),
                        challenge.signature@,
                        answer,
                    ) && match answer {
                        Err(reason) => step matches MutualStep::Abort {
                            close: Some(close),
                            error,
                        } && close.code == 403 && close.reason@ == bytes::ascii("peer-untrusted"@)
                            && error@ == ErrorView::Denied(
                            "acceptor failed verification: "@ + reason.message(),
                        ),
                        Ok(_) => exists|key: Seq<u8>, said: Signed| #[trigger]
                            old(signer).may_present(key) && #[trigger] old(signer).may_answer(
                                wire::mutual_transcript_bytes(1, challenge.nonce@, my_id@, now),
                                said,
                            ) && match (step, said) {
                                (MutualStep::Respond(r), Ok(signature)) => r.verifying_key@ == key
                                    && r.signature@ == signature && r.initiator_unix_secs == now,
                                (
                                    MutualStep::Abort { close: None, error },
                                    Err(words),
                                ) => error@ == words,
                                _ => false,
                            },
                    }
            },
{
    let (checked, now) = choose|checked: SystemTime, now: SystemTime|
        util::clock_gave(checked) && util::clock_gave(now) && #[trigger] mutual::may_step(
            *old(signer),
            judge,
            max_skew,
            greeting.nonce(),
            challenge,
            peer@,
            my_id@,
            util::secs_at(checked),
            util::secs_at(now),
            step@,
        );
    let (c, n) = (util::secs_at(checked), util::secs_at(now));
    assert(util::since_epoch(checked) is None || util::since_epoch(checked) is Some);
    assert(util::since_epoch(now) is None || util::since_epoch(now) is Some);
    assert(freshness::read_off_the_clock(c) && freshness::read_off_the_clock(n));
    let refused = choose|refused: Option<mutual::MutualStepView>| #[trigger]
        mutual::may_check(judge, max_skew, greeting.nonce(), challenge, peer@, c, refused)
            && match refused {
            Some(abort) => step@ == abort,
            None => mutual::may_prove(*old(signer), challenge.nonce@, my_id@, n, step@),
        };
    if refused is None {
        let (key, said) = choose|key: Seq<u8>, said: Signed| #[trigger]
            old(signer).may_present(key) && #[trigger] old(signer).may_answer(
                wire::mutual_transcript_bytes(1, challenge.nonce@, my_id@, n),
                said,
            ) && step@ == mutual::response_step(key, said, n);
        assert(old(signer).may_present(key));
        assert(old(signer).may_answer(
            wire::mutual_transcript_bytes(1, challenge.nonce@, my_id@, n),
            said,
        ));
    }
}

} // verus!
