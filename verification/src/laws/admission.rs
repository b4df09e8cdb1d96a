//! Who is trusted, and whom the one-directional handshake admits.

use crate::ed25519;
use crate::error::ErrorView;
use crate::hyde;
use crate::incoming;
use crate::outgoing;
use crate::peers;
use crate::signer::{HydeSigner, InstitutionalSigner};
use crate::ssh_agent;
use crate::ssh_agent::SshVerifier;
use crate::trust;
use crate::trust::{HydeVerifier, InstitutionVerifier, Verdict, VerifyErrorView};
use crate::util;
use crate::wire;
use vstd::prelude::*;

verus! {

/// A key that is not on the roster is untrusted, whatever it signs and however; an empty roster
/// trusts no one. This holds of both kinds of verifier.
pub proof fn unknown_keys_are_untrusted(
    roster: Map<Seq<u8>, Seq<char>>,
    algorithm: hyde_tee::SigningAlgorithm,
    key: Seq<u8>,
    message: Seq<u8>,
    signature: Seq<u8>,
)
    requires
        !roster.contains_key(key),
    ensures
        trust::hyde_verdict(roster, algorithm, key, message, signature) == Err::<Seq<char>, _>(
            VerifyErrorView::UntrustedKey,
        ),
        ssh_agent::ssh_verdict(roster, key, message, signature) == Err::<Seq<char>, _>(
            VerifyErrorView::UntrustedKey,
        ),
{
}

/// An institution is vouched for only under the label of its key on the roster, and only with a
/// signature that verifies under that key.
pub proof fn verified_institutions_are_on_the_roster(
    roster: Map<Seq<u8>, Seq<char>>,
    algorithm: hyde_tee::SigningAlgorithm,
    key: Seq<u8>,
    message: Seq<u8>,
    signature: Seq<u8>,
    label: Seq<char>,
)
    ensures
        trust::hyde_verdict(roster, algorithm, key, message, signature) == Ok::<
            _,
            VerifyErrorView,
        >(label) ==> {
            &&& roster.contains_key(key)
            &&& roster[key] == label
            &&& hyde::ml_dsa_verifies(algorithm, key, message, signature)
        },
        ssh_agent::ssh_verdict(roster, key, message, signature) == Ok::<_, VerifyErrorView>(label)
            ==> {
            &&& roster.contains_key(key)
            &&& roster[key] == label
            &&& ed25519::ed25519_verifies(key, message, signature)
        },
{
}

/// Trusting one more institution changes nothing for the others.
pub proof fn institutions_are_judged_apart(
    roster: Map<Seq<u8>, Seq<char>>,
    added: Seq<u8>,
    label: Seq<char>,
    algorithm: hyde_tee::SigningAlgorithm,
    key: Seq<u8>,
    message: Seq<u8>,
    signature: Seq<u8>,
)
    requires
        key != added,
    ensures
        trust::hyde_verdict(roster.insert(added, label), algorithm, key, message, signature)
            == trust::hyde_verdict(roster, algorithm, key, message, signature),
        ssh_agent::ssh_verdict(roster.insert(added, label), key, message, signature)
            == ssh_agent::ssh_verdict(roster, key, message, signature),
{
}

/// A signature of a signer that holds its key is good with every verifier of the same parameter
/// set that has the key on its roster: it gives the key's label.
pub proof fn own_signatures_verify(
    signer: HydeSigner,
    verifier: HydeVerifier,
    message: Seq<u8>,
    signature: Seq<u8>,
    answer: Verdict,
)
    requires
        signer.holds_its_key(),
        signer.key().len() == hyde::verifying_key_len(signer.algorithm()),
        verifier.algorithm() == signer.algorithm(),
        verifier.roster().contains_key(signer.key()),
        signer.may_answer(message, Ok(signature)),
        verifier.may_answer(signer.key(), message, signature, answer),
    ensures
        answer == Ok::<_, VerifyErrorView>(verifier.roster()[signer.key()]),
{
}

/// The timestamp can only be the reason for a refusal where there is a limit; without one, any
/// two clocks agree.
pub proof fn no_limit_disables_the_skew_check(ours: u64, theirs: u64)
    ensures
        util::fresh(None, ours, theirs),
{
}

/// The two sides of a handshake agree on what is signed, whatever the backend: the assertion
/// that an initiator makes for a challenge reaches the acceptor's verifier as the very message
/// that the initiator's signer signed, and the verifier's answer is the result.
pub proof fn assertion_reaches_the_verifier<S: InstitutionalSigner, V: InstitutionVerifier>(
    signer: S,
    judge: V,
    max_skew: Option<u64>,
    challenge: wire::ServerChallenge,
    my_id: Seq<u8>,
    now: u64,
    auth: (Seq<u8>, Seq<u8>, u64),
    result: Result<(Seq<u8>, Seq<char>), ErrorView>,
)
    requires
        outgoing::may_respond(signer, challenge, my_id, now, Ok(auth)),
        util::fresh(max_skew, challenge.server_unix_secs, now),
        incoming::may_admit(
            judge,
            max_skew,
            challenge.nonce@,
            challenge.server_unix_secs,
            auth,
            my_id,
            result,
        ),
    ensures
        signer.may_present(auth.0),
        signer.may_answer(wire::transcript_bytes(challenge.nonce@, my_id, now), Ok(auth.1)),
        exists|answer: Verdict| #[trigger]
            judge.may_answer(
                auth.0,
                wire::transcript_bytes(challenge.nonce@, my_id, now),
                auth.1,
                answer,
            ) && result == incoming::admission(my_id, answer),
{
}

/// A trusted institution is admitted: where the signer holds its key and the key is on the
/// acceptor's roster, an honest handshake within the tolerance ends with the initiator's endpoint
/// id under the key's label.
pub proof fn trusted_institution_is_admitted(
    signer: HydeSigner,
    verifier: HydeVerifier,
    max_skew: Option<u64>,
    challenge: wire::ServerChallenge,
    my_id: Seq<u8>,
    now: u64,
    auth: (Seq<u8>, Seq<u8>, u64),
    result: Result<(Seq<u8>, Seq<char>), ErrorView>,
)
    requires
        signer.holds_its_key(),
        signer.key().len() == hyde::verifying_key_len(signer.algorithm()),
        verifier.algorithm() == signer.algorithm(),
        verifier.roster().contains_key(signer.key()),
        outgoing::may_respond(signer, challenge, my_id, now, Ok(auth)),
        util::fresh(max_skew, challenge.server_unix_secs, now),
        incoming::may_admit(
            verifier,
            max_skew,
            challenge.nonce@,
            challenge.server_unix_secs,
            auth,
            my_id,
            result,
        ),
    ensures
        result == Ok::<_, ErrorView>((my_id, verifier.roster()[signer.key()])),
{
    assertion_reaches_the_verifier(
        signer,
        verifier,
        max_skew,
        challenge,
        my_id,
        now,
        auth,
        result,
    );
}

/// Whoever is admitted has shown the verifier a fresh assertion that is bound to the acceptor's
/// own nonce and to the endpoint id that the transport has authenticated; it is admitted under
/// that id and no other.
pub proof fn admission_rests_on_the_verifier<V: InstitutionVerifier>(
    judge: V,
    max_skew: Option<u64>,
    nonce: Seq<u8>,
    time: u64,
    auth: (Seq<u8>, Seq<u8>, u64),
    remote: Seq<u8>,
    admitted: (Seq<u8>, Seq<char>),
)
    requires
        incoming::may_admit(judge, max_skew, nonce, time, auth, remote, Ok(admitted)),
    ensures
        admitted.0 == remote,
        util::fresh(max_skew, time, auth.2),
        judge.may_answer(
            auth.0,
            wire::transcript_bytes(nonce, remote, auth.2),
            auth.1,
            Ok(admitted.1),
        ),
{
}

/// With ML-DSA keys, an initiator is admitted exactly if its assertion is fresh, its key is on the
/// roster and of the right length, and the signature verifies for the acceptor's own nonce and the
/// endpoint id that the transport has authenticated; it is then admitted under the key's label.
pub proof fn hyde_admission_is_exact(
    verifier: HydeVerifier,
    max_skew: Option<u64>,
    nonce: Seq<u8>,
    time: u64,
    auth: (Seq<u8>, Seq<u8>, u64),
    remote: Seq<u8>,
    result: Result<(Seq<u8>, Seq<char>), ErrorView>,
)
    requires
        incoming::may_admit(verifier, max_skew, nonce, time, auth, remote, result),
    ensures
        result is Ok <==> {
            &&& util::fresh(max_skew, time, auth.2)
            &&& verifier.roster().contains_key(auth.0)
            &&& auth.0.len() == hyde::verifying_key_len(verifier.algorithm())
            &&& hyde::ml_dsa_verifies(
                verifier.algorithm(),
                auth.0,
                wire::transcript_bytes(nonce, remote, auth.2),
                auth.1,
            )
        },
        result matches Ok(admitted) ==> admitted == (remote, verifier.roster()[auth.0]),
{
}

/// The same protocol serves ed25519 keys: an initiator is admitted exactly if its assertion is
/// fresh, its key is on the roster and a public key, and the signature verifies for the acceptor's
/// own nonce and the endpoint id that the transport has authenticated.
pub proof fn ed25519_admission_is_exact(
    verifier: SshVerifier,
    max_skew: Option<u64>,
    nonce: Seq<u8>,
    time: u64,
    auth: (Seq<u8>, Seq<u8>, u64),
    remote: Seq<u8>,
    result: Result<(Seq<u8>, Seq<char>), ErrorView>,
)
    requires
        incoming::may_admit(verifier, max_skew, nonce, time, auth, remote, result),
    ensures
        result is Ok <==> {
            &&& util::fresh(max_skew, time, auth.2)
            &&& verifier.roster().contains_key(auth.0)
            &&& auth.0.len() == 32
            &&& ed25519::ed25519_decodes(auth.0)
            &&& auth.1.len() == 64
            &&& ed25519::ed25519_verifies(
                auth.0,
                wire::transcript_bytes(nonce, remote, auth.2),
                auth.1,
            )
        },
        result matches Ok(admitted) ==> admitted == (remote, verifier.roster()[auth.0]),
{
}

/// An institution that is not on the roster is not admitted, whatever it asserts.
pub proof fn outsiders_are_not_admitted(
    verifier: HydeVerifier,
    max_skew: Option<u64>,
    nonce: Seq<u8>,
    time: u64,
    auth: (Seq<u8>, Seq<u8>, u64),
    remote: Seq<u8>,
    result: Result<(Seq<u8>, Seq<char>), ErrorView>,
)
    requires
        !verifier.roster().contains_key(auth.0),
        incoming::may_admit(verifier, max_skew, nonce, time, auth, remote, result),
    ensures
        result == Err::<(Seq<u8>, Seq<char>), _>(
            if util::fresh(max_skew, time, auth.2) {
                ErrorView::Denied(VerifyErrorView::UntrustedKey.message())
            } else {
                ErrorView::ClockSkew
            },
        ),
{
}

/// A captured assertion is of no use elsewhere, whatever the backend. Take an assertion made for
/// one challenge and one endpoint, with a signature that the verifier takes for no message but
/// that one: replayed under another nonce, or by a relay from another endpoint id, or with its
/// timestamp altered, it is refused.
pub proof fn captured_assertions_are_refused<V: InstitutionVerifier>(
    judge: V,
    max_skew: Option<u64>,
    key: Seq<u8>,
    signature: Seq<u8>,
    nonce: Seq<u8>,
    id: Seq<u8>,
    secs: u64,
    other_nonce: Seq<u8>,
    other_id: Seq<u8>,
    other_secs: u64,
    time: u64,
    result: Result<(Seq<u8>, Seq<char>), ErrorView>,
)
    requires
        nonce.len() == other_nonce.len(),
        id.len() == other_id.len(),
        forall|message: Seq<u8>, answer: Verdict|
            message != wire::transcript_bytes(nonce, id, secs) && #[trigger] judge.may_answer(
                key,
                message,
                signature,
                answer,
            ) ==> answer is Err,
        nonce != other_nonce || id != other_id || secs != other_secs,
        incoming::may_admit(
            judge,
            max_skew,
            other_nonce,
            time,
            (key, signature, other_secs),
            other_id,
            result,
        ),
    ensures
        result is Err,
{
    let seen = wire::transcript_bytes(other_nonce, other_id, other_secs);
    if seen == wire::transcript_bytes(nonce, id, secs) {
        crate::laws::messages::transcript_binds(nonce, id, secs, other_nonce, other_id, other_secs);
    }
}

/// The remotes that are let in after a series of handshakes with these results.
pub open spec fn recorded_all(results: Seq<Result<(Seq<u8>, Seq<char>), ErrorView>>) -> Set<Seq<u8>>
    decreases results.len(),
{
    if results.len() == 0 {
        Set::empty()
    } else {
        incoming::recorded(recorded_all(results.drop_last()), results.last())
    }
}

/// Whether the handshake with this result admitted the remote.
pub open spec fn admits(result: Result<(Seq<u8>, Seq<char>), ErrorView>, remote: Seq<u8>) -> bool {
    result matches Ok((admitted, _)) && admitted == remote
}

/// Those who have authenticated are let in, and nobody else: after any series of handshakes, the
/// remotes that are let in are those that one of them admitted.
pub proof fn only_the_authenticated_are_let_in(
    results: Seq<Result<(Seq<u8>, Seq<char>), ErrorView>>,
    remote: Seq<u8>,
)
    ensures
        recorded_all(results).contains(remote) <==> exists|i: int|
            0 <= i < results.len() && admits(#[trigger] results[i], remote),
    decreases results.len(),
{
    if results.len() > 0 {
        let before = results.drop_last();
        only_the_authenticated_are_let_in(before, remote);
        if recorded_all(before).contains(remote) {
            let i = choose|i: int| 0 <= i < before.len() && admits(#[trigger] before[i], remote);
            assert(admits(results[i], remote));
        }
        if exists|i: int| 0 <= i < results.len() && admits(#[trigger] results[i], remote) {
            let i = choose|i: int| 0 <= i < results.len() && admits(#[trigger] results[i], remote);
            if i < before.len() {
                assert(admits(before[i], remote));
            }
        }
        if admits(results.last(), remote) {
            assert(admits(results[results.len() - 1], remote));
        }
    }
}

/// The initiator learns the acceptor's verdict from the close code: closed as the acceptor closes
/// after a handshake with this result, the connection says success exactly if the handshake
/// admitted the initiator, and otherwise that it was denied.
pub proof fn close_tells_the_verdict(
    result: Result<(Seq<u8>, Seq<char>), ErrorView>,
    closed: outgoing::ConnectionClosed,
)
    requires
        closed.application_code == Some(
            if result is Ok {
                wire::CLOSE_ACCEPTED as u64
            } else {
                wire::CLOSE_DENIED as u64
            },
        ),
    ensures
        result is Ok ==> outgoing::verdict_by_close(closed) is None,
        result is Err ==> outgoing::verdict_by_close(closed) == Some(
            ErrorView::Denied("rejected by remote acceptor"@),
        ),
{
}

/// An application connection is dialed only where the authenticator has answered with success.
pub proof fn dials_follow_authentication(reply: Option<peers::AuthResult>)
    ensures
        outgoing::settled(reply) is None <==> (reply matches Some(answer) && answer is Ok),
{
}

} // verus!
