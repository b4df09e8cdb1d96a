//! What the mutual handshake promises to either side.

use crate::error::ErrorView;
use crate::hyde;
use crate::incoming;
use crate::mutual;
use crate::outgoing;
use crate::peers;
use crate::signer::{HydeSigner, InstitutionalSigner};
use crate::trust::{HydeVerifier, InstitutionVerifier, Verdict, VerifyErrorView};
use crate::util;
use crate::wire;
use crate::wire::{PROTOCOL_VERSION, ROLE_ACCEPTOR, ROLE_INITIATOR};
use vstd::prelude::*;

verus! {

/// An initiator of a mutual handshake proves itself only to an acceptor that it has verified: it
/// sends its assertion only if the acceptor's was fresh and its verifier vouched for it, bound to
/// the initiator's own nonce and to the endpoint id that the transport has authenticated. What it
/// sends is then signed for the acceptor's nonce and the initiator's own id.
pub proof fn acceptor_is_verified_first<S: InstitutionalSigner, V: InstitutionVerifier>(
    signer: S,
    judge: V,
    max_skew: Option<u64>,
    nonce: Seq<u8>,
    challenge: wire::MutualChallenge,
    peer: Seq<u8>,
    my_id: Seq<u8>,
    checked: u64,
    now: u64,
    response: (Seq<u8>, Seq<u8>, u64),
)
    requires
        mutual::may_step(
            signer,
            judge,
            max_skew,
            nonce,
            challenge,
            peer,
            my_id,
            checked,
            now,
            mutual::MutualStepView::Respond(response),
        ),
    ensures
        challenge.version == PROTOCOL_VERSION,
        util::fresh(max_skew, checked, challenge.acceptor_unix_secs),
        exists|label: Seq<char>| #[trigger]
            judge.may_answer(
                challenge.verifying_key@,
                wire::mutual_transcript_bytes(
                    ROLE_ACCEPTOR,
                    nonce,
                    peer,
                    challenge.acceptor_unix_secs,
                ),
                challenge.signature@,
                Ok(label),
            ),
        signer.may_present(response.0),
        signer.may_answer(
            wire::mutual_transcript_bytes(ROLE_INITIATOR, challenge.nonce@, my_id, now),
            Ok(response.1),
        ),
        response.2 == now,
{
    let refused = choose|refused: Option<mutual::MutualStepView>| #[trigger]
        mutual::may_check(judge, max_skew, nonce, challenge, peer, checked, refused)
            && match refused {
            Some(abort) => mutual::MutualStepView::Respond(response) == abort,
            None => mutual::may_prove(
                signer,
                challenge.nonce@,
                my_id,
                now,
                mutual::MutualStepView::Respond(response),
            ),
        };
    assert(refused is None);
    let answer = choose|answer: Verdict| #[trigger]
        judge.may_answer(
            challenge.verifying_key@,
            wire::mutual_transcript_bytes(
                ROLE_ACCEPTOR,
                nonce,
                peer,
                challenge.acceptor_unix_secs,
            ),
            challenge.signature@,
            answer,
        ) && answer is Ok;
    assert(answer == Ok::<_, VerifyErrorView>(answer->Ok_0));
}

/// An acceptor whose key is not on the initiator's roster gets no assertion: the initiator gives
/// up and closes the connection, so that the acceptor never records it.
pub proof fn untrusted_acceptors_get_no_assertion<S: InstitutionalSigner>(
    signer: S,
    verifier: HydeVerifier,
    max_skew: Option<u64>,
    nonce: Seq<u8>,
    challenge: wire::MutualChallenge,
    peer: Seq<u8>,
    my_id: Seq<u8>,
    checked: u64,
    now: u64,
    step: mutual::MutualStepView,
)
    requires
        !verifier.roster().contains_key(challenge.verifying_key@),
        mutual::may_step(
            signer,
            verifier,
            max_skew,
            nonce,
            challenge,
            peer,
            my_id,
            checked,
            now,
            step,
        ),
    ensures
        step matches mutual::MutualStepView::Abort(Some(close), _) && close.0 == wire::CLOSE_DENIED,
{
}

/// Whoever a mutual acceptor admits has shown its verifier a fresh assertion as the initiator,
/// bound to the acceptor's own nonce and to the endpoint id that the transport has authenticated;
/// it is admitted under that id and no other.
pub proof fn mutual_admission_rests_on_the_verifier<V: InstitutionVerifier>(
    judge: V,
    max_skew: Option<u64>,
    nonce: Seq<u8>,
    response: (Seq<u8>, Seq<u8>, u64),
    remote: Seq<u8>,
    now: u64,
    admitted: (Seq<u8>, Seq<char>),
)
    requires
        mutual::may_conclude(judge, max_skew, nonce, response, remote, now, Ok(admitted)),
    ensures
        admitted.0 == remote,
        util::fresh(max_skew, now, response.2),
        judge.may_answer(
            response.0,
            wire::mutual_transcript_bytes(ROLE_INITIATOR, nonce, remote, response.2),
            response.1,
            Ok(admitted.1),
        ),
{
}

/// An initiator whose key is not on the acceptor's roster is not admitted, whatever it asserts.
pub proof fn outsiders_are_not_mutually_admitted(
    verifier: HydeVerifier,
    max_skew: Option<u64>,
    nonce: Seq<u8>,
    response: (Seq<u8>, Seq<u8>, u64),
    remote: Seq<u8>,
    now: u64,
    result: Result<(Seq<u8>, Seq<char>), ErrorView>,
)
    requires
        !verifier.roster().contains_key(response.0),
        mutual::may_conclude(verifier, max_skew, nonce, response, remote, now, result),
    ensures
        result is Err,
{
}

/// Two institutions that trust each other authenticate each other. Let `a` greet with a nonce and
/// let `b` challenge it; where each holds its key, has the other's on its roster and is within the
/// tolerance, `a` does not turn `b` down, and once its signer has signed, `b` admits it under its
/// endpoint id and label.
pub proof fn mutual_trust_admits_both(
    signer_a: HydeSigner,
    verifier_a: HydeVerifier,
    id_a: Seq<u8>,
    signer_b: HydeSigner,
    verifier_b: HydeVerifier,
    id_b: Seq<u8>,
    max_skew: Option<u64>,
    hello: wire::MutualHello,
    nonce_b: Seq<u8>,
    time_b: u64,
    made: (Seq<u8>, Seq<u8>, Seq<u8>, u64),
    challenge: wire::MutualChallenge,
    checked: u64,
    time_a: u64,
    step: mutual::MutualStepView,
)
    requires
        signer_a.holds_its_key(),
        signer_a.key().len() == hyde::verifying_key_len(signer_a.algorithm()),
        verifier_b.algorithm() == signer_a.algorithm(),
        verifier_b.roster().contains_key(signer_a.key()),
        signer_b.holds_its_key(),
        signer_b.key().len() == hyde::verifying_key_len(signer_b.algorithm()),
        verifier_a.algorithm() == signer_b.algorithm(),
        verifier_a.roster().contains_key(signer_b.key()),
        mutual::may_challenge(signer_b, id_b, hello, nonce_b, time_b, Ok(made)),
        challenge@ == (PROTOCOL_VERSION, made.0, made.1, made.2, made.3),
        util::fresh(max_skew, checked, time_b),
        mutual::may_step(
            signer_a,
            verifier_a,
            max_skew,
            hello.nonce@,
            challenge,
            id_b,
            id_a,
            checked,
            time_a,
            step,
        ),
    ensures
        step matches mutual::MutualStepView::Abort(close, error) ==> close is None
            && error is Signer,
        step matches mutual::MutualStepView::Respond(response) ==> forall|
            now: u64,
            result: Result<(Seq<u8>, Seq<char>), ErrorView>,
        |
            util::fresh(max_skew, now, time_a) && #[trigger] mutual::may_conclude(
                verifier_b,
                max_skew,
                nonce_b,
                response,
                id_a,
                now,
                result,
            ) ==> result == Ok::<_, ErrorView>((id_a, verifier_b.roster()[signer_a.key()])),
{
    assert(made.0 == nonce_b && made.1 == signer_b.key() && made.3 == time_b);
    assert(signer_b.may_answer(
        wire::mutual_transcript_bytes(ROLE_ACCEPTOR, hello.nonce@, id_b, time_b),
        Ok(made.2),
    ));
    assert(mutual::may_prove(signer_a, nonce_b, id_a, time_a, step));
}

/// Mutual authentication holds in both directions: once an acceptor has admitted a remote, its own
/// requests to connect to that remote go on at once.
pub proof fn admitted_remotes_can_be_dialed_back<W>(
    allowed: Set<Seq<u8>>,
    pending: Map<Seq<u8>, Seq<W>>,
    remote: Seq<u8>,
    label: Seq<char>,
    waiter: W,
)
    ensures
        outgoing::requested(
            incoming::recorded(allowed, Ok((remote, label))),
            pending,
            remote,
            waiter,
        ) == peers::Request::Admit(waiter),
{
}

/// A captured assertion of a mutual handshake is of no use elsewhere, whatever the backend. Take an
/// assertion made in one role for one nonce and one endpoint, with a signature that the verifier
/// takes for no message but that one: shown to an acceptor it is refused unless it was made in the
/// initiator's role, for that acceptor's nonce, and for the endpoint from which it comes.
pub proof fn captured_mutual_assertions_are_refused<V: InstitutionVerifier>(
    judge: V,
    max_skew: Option<u64>,
    key: Seq<u8>,
    signature: Seq<u8>,
    role: u8,
    nonce: Seq<u8>,
    id: Seq<u8>,
    secs: u64,
    other_nonce: Seq<u8>,
    other_id: Seq<u8>,
    other_secs: u64,
    now: u64,
    result: Result<(Seq<u8>, Seq<char>), ErrorView>,
)
    requires
        nonce.len() == other_nonce.len(),
        id.len() == other_id.len(),
        forall|message: Seq<u8>, answer: Verdict|
            message != wire::mutual_transcript_bytes(role, nonce, id, secs)
                && #[trigger] judge.may_answer(key, message, signature, answer) ==> answer is Err,
        role != ROLE_INITIATOR || nonce != other_nonce || id != other_id || secs != other_secs,
        mutual::may_conclude(
            judge,
            max_skew,
            other_nonce,
            (key, signature, other_secs),
            other_id,
            now,
            result,
        ),
    ensures
        result is Err,
{
    let seen = wire::mutual_transcript_bytes(ROLE_INITIATOR, other_nonce, other_id, other_secs);
    if seen == wire::mutual_transcript_bytes(role, nonce, id, secs) {
        crate::laws::messages::mutual_transcript_binds(
            role,
            nonce,
            id,
            secs,
            ROLE_INITIATOR,
            other_nonce,
            other_id,
            other_secs,
        );
    }
}

/// The same holds towards an initiator: a captured assertion in an acceptor's challenge is turned
/// down unless it was made in the acceptor's role, for the nonce with which the initiator greeted,
/// and for the endpoint from which it comes.
pub proof fn captured_challenges_are_turned_down<V: InstitutionVerifier>(
    judge: V,
    max_skew: Option<u64>,
    role: u8,
    nonce: Seq<u8>,
    id: Seq<u8>,
    secs: u64,
    greeted: Seq<u8>,
    challenge: wire::MutualChallenge,
    peer: Seq<u8>,
    checked: u64,
    refused: Option<mutual::MutualStepView>,
)
    requires
        nonce.len() == greeted.len(),
        id.len() == peer.len(),
        forall|message: Seq<u8>, answer: Verdict|
            message != wire::mutual_transcript_bytes(role, nonce, id, secs)
                && #[trigger] judge.may_answer(
                challenge.verifying_key@,
                message,
                challenge.signature@,
                answer,
            ) ==> answer is Err,
        role != ROLE_ACCEPTOR || nonce != greeted || id != peer || secs
            != challenge.acceptor_unix_secs,
        mutual::may_check(judge, max_skew, greeted, challenge, peer, checked, refused),
    ensures
        refused is Some,
{
    let time = challenge.acceptor_unix_secs;
    let seen = wire::mutual_transcript_bytes(ROLE_ACCEPTOR, greeted, peer, time);
    if seen == wire::mutual_transcript_bytes(role, nonce, id, secs) {
        crate::laws::messages::mutual_transcript_binds(
            role,
            nonce,
            id,
            secs,
            ROLE_ACCEPTOR,
            greeted,
            peer,
            time,
        );
    }
}

} // verus!
