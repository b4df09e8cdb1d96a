//! What is set up, kept and looked up: what each operation leaves, and what a later one finds.

use crate::bytes;
use crate::error::{Error, ErrorView};
use crate::hyde;
use crate::incoming;
use crate::incoming::{AuthProtocol, Authenticated, Challenged, Close, IncomingAuthHook};
use crate::laws::{identities, layout};
use crate::mutual;
use crate::mutual::{
    MutualAuthHook, MutualAuthProtocol, MutualAuthTask, MutualChallenged, MutualGreeting,
    MutualStep,
};
use crate::outgoing;
use crate::outgoing::{BeforeConnectOutcome, OutgoingAuthHook, OutgoingAuthTask};
use crate::peers;
use crate::peers::{AuthResult, Pending, RemoteSet};
use crate::signer;
use crate::signer::{HydeSigner, InstitutionalSigner};
use crate::ssh_agent;
use crate::ssh_agent::{Reader, SshAgentSigner, SshVerifier};
use crate::table::Table;
use crate::text;
use crate::trust;
use crate::trust::{HydeVerifier, InstitutionVerifier, Roster, VerifyError, VerifyErrorView};
use crate::util;
use crate::wire;
use crate::wire::{
    ClientAuth, ClientHello, EndpointId, Message, MutualChallenge, MutualHello, Nonce,
    ServerChallenge,
};
use hyde_tee::{HydeContext, SigningAlgorithm, WrappedSigningKey};
use vstd::prelude::*;

verus! {

/// A new table finds nothing.
pub proof fn new_tables_are_empty<V>(table: Table<V>, key: &[u8], found: bool, count: usize)
    requires
        call_ensures(Table::<V>::new, (), table),
        call_ensures(Table::<V>::contains, (&table, key), found),
        call_ensures(Table::<V>::len, (&table,), count),
    ensures
        !found,
        count == 0,
{
}

/// What is put into a table is found there under its key, and under every other key what was there
/// before.
pub proof fn tables_find_what_was_put<V>(
    table: &mut Table<V>,
    key: Vec<u8>,
    value: V,
    asked: &[u8],
    before: Option<&V>,
    after: Option<&V>,
)
    requires
        call_ensures(Table::<V>::insert, (table, key, value), ()),
        call_ensures(Table::<V>::get, (&*old(table), asked), before),
        call_ensures(Table::<V>::get, (&*final(table), asked), after),
    ensures
        if asked@ == key@ {
            after matches Some(v) && *v == value
        } else {
            match (before, after) {
                (Some(v), Some(w)) => *v == *w,
                (None, None) => true,
                _ => false,
            }
        },
{
}

/// What is taken out of a table is what was found there, it is not found again, and under every
/// other key there is what was there before.
pub proof fn tables_lose_what_was_taken<V>(
    table: &mut Table<V>,
    key: &[u8],
    taken: Option<V>,
    asked: &[u8],
    before: Option<&V>,
    after: Option<&V>,
)
    requires
        call_ensures(Table::<V>::remove, (table, key), taken),
        call_ensures(Table::<V>::get, (&*old(table), asked), before),
        call_ensures(Table::<V>::get, (&*final(table), asked), after),
    ensures
        if asked@ == key@ {
            after is None && match (before, taken) {
                (Some(v), Some(w)) => *v == w,
                (None, None) => true,
                _ => false,
            }
        } else {
            match (before, after) {
                (Some(v), Some(w)) => *v == *w,
                (None, None) => true,
                _ => false,
            }
        },
{
}

/// A new roster trusts no one.
pub proof fn new_rosters_trust_no_one(
    roster: Roster,
    standard: Roster,
    key: &[u8],
    trusted: bool,
    count: usize,
    empty: bool,
)
    requires
        call_ensures(Roster::new, (), roster),
        call_ensures(<Roster as Default>::default, (), standard),
        call_ensures(Roster::contains, (&roster, key), trusted),
        call_ensures(Roster::len, (&roster,), count),
        call_ensures(Roster::is_empty, (&roster,), empty),
    ensures
        !trusted,
        count == 0,
        empty,
        standard@ == roster@,
{
}

/// A key that is added to a roster is found there under its label, and every other key as before;
/// the roster grows by one exactly if the key is a new one.
pub proof fn rosters_find_who_was_added(
    roster: &mut Roster,
    key: Vec<u8>,
    label: &str,
    grown: &mut Roster,
    asked: &[u8],
    before: Option<&str>,
    after: Option<&str>,
    trusted: bool,
    count_before: usize,
    count_after: usize,
)
    requires
        call_ensures(Roster::insert, (roster, key, label), grown),
        call_ensures(Roster::label, (&*old(roster), asked), before),
        call_ensures(Roster::label, (&*old(grown), asked), after),
        call_ensures(Roster::contains, (&*old(grown), asked), trusted),
        call_ensures(Roster::len, (&*old(roster),), count_before),
        call_ensures(Roster::len, (&*old(grown),), count_after),
    ensures
        if asked@ == key@ {
            after matches Some(text) && text@ == label@
        } else {
            match (before, after) {
                (Some(t), Some(u)) => t@ == u@,
                (None, None) => true,
                _ => false,
            }
        },
        trusted <==> after is Some,
        asked@ == key@ ==> count_after == (if before is Some {
            count_before as int
        } else {
            count_before + 1
        }),
        *final(roster) == *final(grown),
{
}

/// A roster is empty exactly if it has no one, and a copy of it trusts the same under the same
/// labels.
pub proof fn rosters_are_copied(
    roster: Roster,
    copy: Roster,
    key: &[u8],
    label: Option<&str>,
    copied: Option<&str>,
    count: usize,
    empty: bool,
)
    requires
        call_ensures(<Roster as Clone>::clone, (&roster,), copy),
        call_ensures(Roster::label, (&roster, key), label),
        call_ensures(Roster::label, (&copy, key), copied),
        call_ensures(Roster::len, (&roster,), count),
        call_ensures(Roster::is_empty, (&roster,), empty),
    ensures
        match (label, copied) {
            (Some(t), Some(u)) => t@ == u@,
            (None, None) => true,
            _ => false,
        },
        empty <==> count == 0,
{
    if empty {
        assert(roster@.dom() =~= Set::<Seq<u8>>::empty());
    } else if count == 0 {
        assert(roster@.dom() =~= Set::<Seq<u8>>::empty());
        assert(roster@ =~= Map::<Seq<u8>, Seq<char>>::empty());
    }
}

/// What a roster makes of a crypto check: the check's own words where it failed, a bad signature
/// where it said no, and the label of the key where it said yes, or no text if the key has none.
pub proof fn rosters_conclude(
    roster: Roster,
    key: &[u8],
    checked: Result<bool, String>,
    label: Option<&str>,
    answer: Result<String, VerifyError>,
)
    requires
        call_ensures(Roster::conclude, (&roster, key, checked), answer),
        call_ensures(Roster::label, (&roster, key), label),
    ensures
        match checked {
            Err(text) => answer matches Err(VerifyError::Crypto(words)) && words@ == text@,
            Ok(false) => answer matches Err(VerifyError::BadSignature),
            Ok(true) => answer matches Ok(institution) && match label {
                Some(text) => institution@ == text@,
                None => institution@.len() == 0,
            },
        },
{
}

/// Verifiers keep the roster that they are given; a verifier of ML-DSA keys has the parameter set
/// 65 unless another is set, and a copy is the same.
pub proof fn verifiers_are_set_up(
    roster: Roster,
    verifier: HydeVerifier,
    algorithm: SigningAlgorithm,
    changed: HydeVerifier,
    copy: HydeVerifier,
    ssh: SshVerifier,
    ssh_copy: SshVerifier,
)
    requires
        call_ensures(HydeVerifier::new, (roster,), verifier),
        call_ensures(HydeVerifier::with_algorithm, (verifier, algorithm), changed),
        call_ensures(<HydeVerifier as Clone>::clone, (&changed,), copy),
        call_ensures(SshVerifier::new, (roster,), ssh),
        call_ensures(<SshVerifier as Clone>::clone, (&ssh,), ssh_copy),
    ensures
        verifier.roster() == roster@,
        verifier.algorithm() == SigningAlgorithm::MlDsa65,
        changed.roster() == roster@,
        changed.algorithm() == algorithm,
        copy.roster() == roster@,
        copy.algorithm() == algorithm,
        ssh.roster() == roster@,
        ssh_copy.roster() == roster@,
{
}

/// An acceptor starts with nobody let in, with the verifier that it is given and a tolerance of 300
/// seconds; another tolerance can be set, and changes nothing else; a copy is the same.
pub proof fn acceptors_are_set_up<V: InstitutionVerifier>(
    verifier: V,
    pair: (IncomingAuthHook, AuthProtocol<V>),
    secs: Option<u64>,
    changed: AuthProtocol<V>,
    copy: AuthProtocol<V>,
)
    requires
        call_ensures(incoming::incoming::<V>, (verifier,), pair),
        call_ensures(AuthProtocol::<V>::with_max_skew, (pair.1, secs), changed),
        call_ensures(<AuthProtocol<V> as Clone>::clone, (&changed,), copy),
    ensures
        forall|remote: Seq<u8>| !(#[trigger] pair.0.allowed().contains(remote)),
        pair.1.judge() == verifier,
        pair.1.max_skew() == Some(300u64),
        changed.judge() == verifier,
        changed.max_skew() == secs,
        copy.judge() == verifier,
        copy.max_skew() == secs,
{
}

/// An initiator starts with its signer, with no remote allowed and nobody waiting.
pub proof fn initiators_are_set_up<S: InstitutionalSigner, W>(
    signer: S,
    pair: (OutgoingAuthHook, OutgoingAuthTask<S, W>),
)
    requires
        call_ensures(outgoing::outgoing::<S, W>, (signer,), pair),
    ensures
        pair.1.signer() == signer,
        forall|remote: Seq<u8>| !(#[trigger] pair.1.allowed().contains(remote)),
        forall|remote: Seq<u8>| !(#[trigger] pair.1.pending().contains_key(remote)),
{
}

/// A mutual endpoint starts with its signer on the task, with its verifier and a tolerance of 300
/// seconds on both sides, with nobody let in, nobody waiting and no id; the acceptor's tolerance
/// can be set, and changes nothing else; a copy is the same.
pub proof fn mutual_endpoints_are_set_up<S: InstitutionalSigner, V: InstitutionVerifier, W>(
    signer: S,
    verifier: V,
    pieces: (MutualAuthHook, MutualAuthProtocol<V>, MutualAuthTask<S, V, W>),
    secs: Option<u64>,
    changed: MutualAuthProtocol<V>,
    copy: MutualAuthProtocol<V>,
)
    requires
        call_ensures(mutual::mutual::<S, V, W>, (signer, verifier), pieces),
        call_ensures(MutualAuthProtocol::<V>::with_max_skew, (pieces.1, secs), changed),
        call_ensures(<MutualAuthProtocol<V> as Clone>::clone, (&changed,), copy),
    ensures
        forall|remote: Seq<u8>| !(#[trigger] pieces.0.allowed().contains(remote)),
        pieces.0.local() is None,
        pieces.1.judge() == verifier,
        pieces.1.max_skew() == Some(300u64),
        pieces.2.signer() == signer,
        pieces.2.judge() == verifier,
        pieces.2.max_skew() == Some(300u64),
        forall|remote: Seq<u8>| !(#[trigger] pieces.2.pending().contains_key(remote)),
        changed.judge() == verifier,
        changed.max_skew() == secs,
        copy.judge() == verifier,
        copy.max_skew() == secs,
{
}

/// The id that is published first is the endpoint's own, whatever is published later; until then
/// there is none, in these words.
pub proof fn the_first_published_id_stays(
    hook: &mut MutualAuthHook,
    id: EndpointId,
    before: Result<EndpointId, Error>,
    after: Result<EndpointId, Error>,
)
    requires
        call_ensures(MutualAuthHook::publish, (hook, &id), ()),
        call_ensures(MutualAuthHook::own_id, (&*old(hook),), before),
        call_ensures(MutualAuthHook::own_id, (&*final(hook),), after),
    ensures
        match before {
            Ok(first) => after matches Ok(own) && own@ == first@,
            Err(error) => error@ == ErrorView::Signer(
                "local endpoint id not set — spawn the MutualAuthTask"@,
            ) && (after matches Ok(own) && own@ == id@),
        },
        final(hook).allowed() == old(hook).allowed(),
{
}

/// Handshakes themselves are dialed at once; every other connection asks for authentication first.
pub proof fn only_handshakes_are_dialed_at_once(
    hook: OutgoingAuthHook,
    mutual_hook: MutualAuthHook,
    alpn: &[u8],
    outcome: Option<BeforeConnectOutcome>,
    mutual_outcome: Option<BeforeConnectOutcome>,
)
    requires
        call_ensures(OutgoingAuthHook::before_connect, (&hook, alpn), outcome),
        call_ensures(MutualAuthHook::before_connect, (&mutual_hook, alpn), mutual_outcome),
    ensures
        match outcome {
            Some(o) => o is Accept && alpn@ == bytes::ascii("iroh-hyde-auth/0"@),
            None => alpn@ != bytes::ascii("iroh-hyde-auth/0"@),
        },
        match mutual_outcome {
            Some(o) => o is Accept && alpn@ == bytes::ascii("iroh-hyde-auth/mutual/0"@),
            None => alpn@ != bytes::ascii("iroh-hyde-auth/mutual/0"@),
        },
{
    crate::laws::messages::names_are_ascii_texts();
}

/// A challenge is made for a greeting of version 0 and for no other, with the nonce and the time
/// that it is given, and says these.
pub proof fn challenges_are_made(
    hello: ClientHello,
    nonce: Nonce,
    now: u64,
    session: Result<Challenged, Error>,
    made: Challenged,
    message: ServerChallenge,
)
    requires
        call_ensures(Challenged::with_nonce, (&hello, nonce, now), session),
        call_ensures(Challenged::message, (&made,), message),
    ensures
        match session {
            Ok(s) => hello.version == 0 && s.nonce() == nonce@ && s.time() == now,
            Err(error) => hello.version != 0 && error@ == ErrorView::Version(hello.version),
        },
        message.version == 0,
        message.nonce@ == made.nonce(),
        message.server_unix_secs == made.time(),
{
}

/// Greetings are of version 0; a mutual one carries the nonce that it is given.
pub proof fn greetings_are_made(
    hello: ClientHello,
    nonce: Nonce,
    greeting: MutualGreeting,
    message: MutualHello,
)
    requires
        call_ensures(outgoing::hello, (), hello),
        call_ensures(MutualGreeting::with_nonce, (nonce,), greeting),
        call_ensures(MutualGreeting::message, (&greeting,), message),
    ensures
        hello.version == 0,
        greeting.nonce() == nonce@,
        message.version == 0,
        message.nonce@ == nonce@,
{
}

/// What a verifier's answer makes of a remote: admitted under the label, or denied in the refusal's
/// words; and who was admitted can be told.
pub proof fn answers_admit_or_deny(
    remote: EndpointId,
    answer: Result<String, VerifyError>,
    result: Result<Authenticated, Error>,
    one: Authenticated,
    id: EndpointId,
    label: &str,
)
    requires
        call_ensures(Authenticated::from_answer, (&remote, answer), result),
        call_ensures(Authenticated::remote, (&one,), id),
        call_ensures(Authenticated::institution, (&one,), label),
    ensures
        match (answer, result) {
            (Ok(institution), Ok(admitted)) => admitted@.0 == remote@ && admitted@.1
                == institution@,
            (Err(reason), Err(Error::Denied(text))) => text@ == reason@.message(),
            _ => false,
        },
        id@ == one@.0,
        label@ == one@.1,
{
}

/// How connections are closed after a handshake.
pub proof fn closes_are_made(accepted: Close, denied: Close)
    requires
        call_ensures(incoming::close_accepted, (), accepted),
        call_ensures(incoming::close_denied, (), denied),
    ensures
        accepted.code == 1,
        accepted.reason@ == bytes::ascii("accepted"@),
        denied.code == 403,
        denied.reason@ == bytes::ascii("denied"@),
{
}

/// What a signer's answer makes of the third message, the acceptor's challenge and the initiator's
/// step: its signature goes with the key, the time and the nonce that are given, and its error is
/// handed on as it is.
pub proof fn signatures_are_sent(
    nonce: Nonce,
    key: Vec<u8>,
    answer: Result<Vec<u8>, Error>,
    now: u64,
    auth: Result<ClientAuth, Error>,
    made: Result<(MutualChallenge, MutualChallenged), Error>,
    step: MutualStep,
)
    requires
        call_ensures(outgoing::client_auth, (key, answer, now), auth),
        call_ensures(mutual::make_challenge, (nonce, key, answer, now), made),
        call_ensures(mutual::make_response, (key, answer, now), step),
    ensures
        match answer {
            Ok(signature) => {
                &&& auth matches Ok(a) && a.verifying_key@ == key@ && a.signature@ == signature@
                    && a.client_unix_secs == now
                &&& made matches Ok((c, session)) && c.version == 0 && c.nonce@ == nonce@
                    && c.verifying_key@ == key@ && c.signature@ == signature@
                    && c.acceptor_unix_secs == now && session.nonce() == nonce@
                &&& step matches MutualStep::Respond(r) && r.verifying_key@ == key@ && r.signature@
                    == signature@ && r.initiator_unix_secs == now
            },
            Err(error) => {
                &&& auth matches Err(e) && e@ == error@
                &&& made matches Err(e) && e@ == error@
                &&& step matches MutualStep::Abort { close: None, error: e } && e@ == error@
            },
        },
{
}

/// An acceptor that is refused is told so by code 403, and the error says why.
pub proof fn refused_acceptors_are_told(reason: VerifyError, step: MutualStep)
    requires
        call_ensures(mutual::refuse_acceptor, (&reason,), step),
    ensures
        step matches MutualStep::Abort { close: Some(close), error } && close.code == 403
            && close.reason@ == bytes::ascii("peer-untrusted"@) && error@ == ErrorView::Denied(
            "acceptor failed verification: "@ + reason@.message(),
        ),
{
}

/// What a backend gives is handed on: a context, a key or a signature as it is, and words as a
/// signer error in these words.
pub proof fn backend_answers_are_handed_on(
    detected: Result<HydeContext, String>,
    ctx: Result<HydeContext, Error>,
    made: Result<WrappedSigningKey, String>,
    in_ctx: HydeContext,
    signer: Result<HydeSigner, Error>,
    answer: Result<Vec<u8>, String>,
    result: Result<Vec<u8>, Error>,
)
    requires
        call_ensures(HydeSigner::from_detected, (detected,), ctx),
        call_ensures(HydeSigner::from_made, (in_ctx, made), signer),
        call_ensures(signer::signed, (answer,), result),
    ensures
        match (detected, ctx) {
            (Ok(found), Ok(taken)) => taken == found,
            (Err(text), Err(Error::Signer(words))) => words@ == text@,
            _ => false,
        },
        match (made, signer) {
            (Ok(key), Ok(s)) => {
                &&& s.sealed() == key
                &&& s.key() == key.verifying_key@
                &&& s.algorithm() == key.algorithm
                &&& s.backend() == key.backend
                &&& s.holds_its_key() <==> hyde::opened_keys(in_ctx).contains(
                    (
                        key.algorithm,
                        key.verifying_key@,
                        key.wrapping_key.blob@,
                        key.sealed_signing_key@,
                    ),
                )
            },
            (Err(text), Err(Error::Signer(words))) => words@ == text@,
            _ => false,
        },
        match (answer, result) {
            (Ok(given), Ok(signature)) => signature@ == given@,
            (Err(text), Err(Error::Signer(words))) => words@ == text@,
            _ => false,
        },
{
}

/// The signer of a task is lent whole: what it becomes is the task's signer, and nothing else of
/// the task changes.
pub proof fn signers_are_lent<S: InstitutionalSigner, V: InstitutionVerifier, W>(
    task: &mut OutgoingAuthTask<S, W>,
    lent: &mut S,
    mutual_task: &mut MutualAuthTask<S, V, W>,
    mutual_lent: &mut S,
)
    requires
        call_ensures(OutgoingAuthTask::<S, W>::signer_mut, (task,), lent),
        call_ensures(MutualAuthTask::<S, V, W>::signer_mut, (mutual_task,), mutual_lent),
    ensures
        *old(lent) == old(task).signer(),
        *final(lent) == final(task).signer(),
        final(task).allowed() == old(task).allowed(),
        final(task).pending() == old(task).pending(),
        *old(mutual_lent) == old(mutual_task).signer(),
        *final(mutual_lent) == final(mutual_task).signer(),
        final(mutual_task).judge() == old(mutual_task).judge(),
        final(mutual_task).pending() == old(mutual_task).pending(),
        final(mutual_task).max_skew() == old(mutual_task).max_skew(),
{
}

/// What a mutual task checks acceptors with is its own verifier and tolerance.
pub proof fn checks_are_the_tasks<S: InstitutionalSigner, V: InstitutionVerifier, W>(
    task: MutualAuthTask<S, V, W>,
    parts: (std::sync::Arc<V>, Option<u64>),
)
    requires
        call_ensures(MutualAuthTask::<S, V, W>::checks, (&task,), parts),
    ensures
        *parts.0 == task.judge(),
        parts.1 == task.max_skew(),
{
}

/// A set of remotes has what was added to it and nothing else.
pub proof fn remote_sets_have_who_was_added(
    fresh: RemoteSet,
    set: &mut RemoteSet,
    remote: EndpointId,
    asked: EndpointId,
    none: bool,
    before: bool,
    after: bool,
)
    requires
        call_ensures(RemoteSet::new, (), fresh),
        call_ensures(RemoteSet::contains, (&fresh, &asked), none),
        call_ensures(RemoteSet::insert, (set, &remote), ()),
        call_ensures(RemoteSet::contains, (&*old(set), &asked), before),
        call_ensures(RemoteSet::contains, (&*final(set), &asked), after),
    ensures
        !none,
        after <==> before || asked@ == remote@,
{
}

/// Who comes to wait for a remote is put behind those who do; it is the first exactly if nobody
/// did; and those who wait for another remote are left alone.
pub proof fn waiters_are_put_behind<W>(
    pending: &mut Pending<W>,
    remote: EndpointId,
    waiter: W,
    first: bool,
    asked: Seq<u8>,
)
    requires
        call_ensures(Pending::<W>::enqueue, (pending, &remote, waiter), first),
    ensures
        first <==> !old(pending)@.contains_key(remote@),
        final(pending)@.contains_key(remote@),
        final(pending)@[remote@].last() == waiter,
        final(pending)@[remote@].drop_last() == (if first {
            Seq::empty()
        } else {
            old(pending)@[remote@]
        }),
        asked != remote@ ==> (final(pending)@.contains_key(asked) <==> old(
            pending,
        )@.contains_key(asked)),
        asked != remote@ && old(pending)@.contains_key(asked) ==> final(pending)@[asked] == old(
            pending,
        )@[asked],
{
    assert(final(pending)@[remote@].drop_last() =~= (if first {
        Seq::empty()
    } else {
        old(pending)@[remote@]
    }));
}

/// Who waits for a remote is taken out whole, and those who wait for another are left alone.
pub proof fn waiters_are_taken_out<W>(
    fresh: Pending<W>,
    pending: &mut Pending<W>,
    remote: EndpointId,
    list: Vec<W>,
    asked: Seq<u8>,
)
    requires
        call_ensures(Pending::<W>::new, (), fresh),
        call_ensures(Pending::<W>::take, (pending, &remote), list),
    ensures
        !fresh@.contains_key(asked),
        old(pending)@.contains_key(remote@) ==> list@ == old(pending)@[remote@],
        !old(pending)@.contains_key(remote@) ==> list@.len() == 0,
        !final(pending)@.contains_key(remote@),
        asked != remote@ ==> (final(pending)@.contains_key(asked) <==> old(
            pending,
        )@.contains_key(asked)),
        asked != remote@ && old(pending)@.contains_key(asked) ==> final(pending)@[asked] == old(
            pending,
        )@[asked],
{
}

/// Each waiter is told the result, once and in order.
pub proof fn everyone_is_told<W>(
    waiters: Vec<W>,
    res: AuthResult,
    answers: Vec<(W, AuthResult)>,
    copy: AuthResult,
)
    requires
        call_ensures(peers::answer_all::<W>, (waiters, &res), answers),
        call_ensures(peers::same_result, (&res,), copy),
    ensures
        answers@.len() == waiters@.len(),
        forall|i: int|
            0 <= i < waiters@.len() ==> (#[trigger] answers@[i]).0 == waiters@[i] && answers@[i].1
                == res,
        copy == res,
{
}

/// A clock reading counts as it is, and none as 0.
pub proof fn readings_count_as_they_are(reading: Option<u64>, secs: u64)
    requires
        call_ensures(util::epoch_secs, (reading,), secs),
    ensures
        match reading {
            Some(s) => secs == s,
            None => secs == 0,
        },
{
}

/// Byte strings are equal exactly if they have the same length and the same bytes.
pub proof fn byte_strings_are_compared(a: &[u8], b: &[u8], equal: bool)
    requires
        call_ensures(bytes::bytes_eq, (a, b), equal),
    ensures
        equal <==> a@.len() == b@.len() && forall|i: int| 0 <= i < a@.len() ==> a@[i] == b@[i],
{
    if a@.len() == b@.len() && forall|i: int| 0 <= i < a@.len() ==> a@[i] == b@[i] {
        assert(a@ =~= b@);
    }
}

/// A reader hands out what stands in front and goes on behind it; where there is too little, it
/// fails and stays where it is.
pub proof fn readers_go_on_behind<'a>(
    bytes: &'a [u8],
    fresh: Reader<'a>,
    reader: &mut Reader<'a>,
    n: usize,
    taken: Result<&'a [u8], Error>,
    other: &mut Reader<'a>,
    byte: Result<u8, Error>,
    third: &mut Reader<'a>,
    number: Result<u32, Error>,
)
    requires
        call_ensures(Reader::<'a>::new, (bytes,), fresh),
        call_ensures(Reader::<'a>::take, (reader, n), taken),
        call_ensures(Reader::<'a>::u8, (other,), byte),
        call_ensures(Reader::<'a>::u32, (third,), number),
    ensures
        fresh.rest() == bytes@,
        match taken {
            Ok(front) => front@.len() == n && old(reader).rest() == front@ + final(reader).rest(),
            Err(error) => old(reader).rest().len() < n && final(reader).rest() == old(reader).rest()
                && error@ == ErrorView::Signer("ssh-agent: truncated message"@),
        },
        match byte {
            Ok(b) => old(other).rest() == seq![b] + final(other).rest(),
            Err(error) => old(other).rest().len() == 0 && final(other).rest() == old(other).rest()
                && error@ == ErrorView::Signer("ssh-agent: truncated message"@),
        },
        match number {
            Ok(x) => old(third).rest().len() >= 4 && x == identities::four_bytes(
                old(third).rest(),
                0,
            ) && final(third).rest() == old(third).rest().skip(4),
            Err(error) => old(third).rest().len() < 4 && final(third).rest() == old(third).rest()
                && error@ == ErrorView::Signer("ssh-agent: truncated message"@),
        },
{
    if let Ok(front) = taken {
        assert(old(reader).rest() =~= front@ + final(reader).rest());
    }
    if let Ok(b) = byte {
        assert(old(other).rest() =~= seq![b] + final(other).rest());
    }
}

/// A copy of an agent's signer has the same key at the same socket.
pub proof fn agent_signers_are_copied(signer: SshAgentSigner, copy: SshAgentSigner)
    requires
        call_ensures(<SshAgentSigner as Clone>::clone, (&signer,), copy),
    ensures
        copy@ == signer@,
        copy.socket() == signer.socket(),
{
}

/// The numbers of the protocol.
pub proof fn numbers_of_the_protocol()
    ensures
        wire::PROTOCOL_VERSION == 0,
        wire::NONCE_LEN == 32,
        wire::ENDPOINT_ID_LEN == 32,
        wire::CLOSE_ACCEPTED == 1,
        wire::CLOSE_DENIED == 403,
        wire::MAX_MSG == 0x4000,
        wire::ROLE_INITIATOR == 1,
        wire::ROLE_ACCEPTOR == 2,
        incoming::DEFAULT_MAX_SKEW_SECS == 300,
        ssh_agent::MAX_AGENT_MSG == 0x10_0000,
{
}

/// Answers and errors as mathematical values say what they say: no two that differ are taken for
/// the same.
pub proof fn values_say_what_they_stand_for<T: View>(
    answer: Result<String, VerifyError>,
    result: Result<T, Error>,
    error: Error,
    reason: VerifyError,
)
    ensures
        match answer {
            Ok(label) => trust::verdict(answer) matches Ok(l) && l == label@,
            Err(r) => trust::verdict(answer) matches Err(v) && v == r@,
        },
        match result {
            Ok(value) => crate::error::outcome(result) matches Ok(v) && v == value@,
            Err(e) => crate::error::outcome(result) matches Err(v) && v == e@,
        },
        match (error, error@) {
            (Error::Transport(t), ErrorView::Transport(v)) => t@ == v,
            (Error::Codec(e), ErrorView::Codec(v)) => e == v,
            (Error::MessageTooLarge(n), ErrorView::MessageTooLarge(v)) => n == v,
            (Error::Version(n), ErrorView::Version(v)) => n == v,
            (Error::ClockSkew, ErrorView::ClockSkew) => true,
            (Error::Signer(t), ErrorView::Signer(v)) => t@ == v,
            (Error::Denied(t), ErrorView::Denied(v)) => t@ == v,
            (Error::AuthenticatorStopped, ErrorView::AuthenticatorStopped) => true,
            _ => false,
        },
        match (reason, reason@) {
            (VerifyError::UntrustedKey, VerifyErrorView::UntrustedKey) => true,
            (VerifyError::BadSignature, VerifyErrorView::BadSignature) => true,
            (VerifyError::Revoked, VerifyErrorView::Revoked) => true,
            (VerifyError::Crypto(t), VerifyErrorView::Crypto(v)) => t@ == v,
            _ => false,
        },
{
}

/// A transport's words become a transport error in these words.
pub proof fn transport_errors_keep_their_words(text: String, error: Error)
    requires
        call_ensures(crate::error::transport, (text,), error),
    ensures
        error matches Error::Transport(words) && words@ == text@,
{
}

/// A number is written in decimal as digits that stand for it.
pub proof fn numbers_are_written_in_decimal(n: u64, text: String)
    requires
        call_ensures(text::decimal_text, (n,), text),
    ensures
        layout::digits_value(text@) == n,
        text@.len() >= 1,
        forall|i: int|
            0 <= i < text@.len() ==> '0' as int <= #[trigger] text@[i] as int <= '9' as int,
        text@[0] == '0' ==> n == 0,
{
    layout::decimals_stand_for_their_number(n as nat);
}

/// What is appended stands behind what was there: byte strings as they are, and numbers most
/// significant byte first.
pub proof fn what_is_appended_stands_behind(
    text: &str,
    ascii: Vec<u8>,
    first: &mut Vec<u8>,
    more: &[u8],
    second: &mut Vec<u8>,
    x: u32,
    third: &mut Vec<u8>,
    y: u64,
    four: &[u8],
    number: u32,
)
    requires
        call_ensures(bytes::ascii_bytes, (text,), ascii),
        call_ensures(bytes::put_bytes, (first, more), ()),
        call_ensures(bytes::put_be32, (second, x), ()),
        call_ensures(bytes::put_be64, (third, y), ()),
        call_ensures(bytes::get_be32, (four,), number),
    ensures
        ascii@ == bytes::ascii(text@),
        final(first)@ == old(first)@ + more@,
        final(second)@ == old(second)@ + bytes::be32(x),
        final(third)@ == old(third)@ + bytes::be64(y),
        number == identities::four_bytes(four@, 0),
{
}

/// What the codec makes of a message is handed on: the message as it is, and what was wrong as a
/// codec error.
pub proof fn codec_answers_are_handed_on<M: View>(
    read: Result<M, postcard::Error>,
    result: Result<M, Error>,
)
    requires
        call_ensures(wire::receive::<M>, (read,), result),
    ensures
        match (read, result) {
            (Ok(message), Ok(same)) => same@ == message@,
            (Err(wrong), Err(error)) => error@ == ErrorView::Codec(wrong),
            _ => false,
        },
{
}

/// A written message is its encoding behind the length of that in four bytes; only one whose length
/// does not fit there is refused, with that length.
pub proof fn written_messages_are_frames<M: Message>(
    message: M,
    written: Result<Vec<u8>, Error>,
)
    requires
        call_ensures(wire::write_msg::<M>, (&message,), written),
    ensures
        match written {
            Ok(b) => {
                &&& b@.len() == 4 + M::encoding(message@).len()
                &&& identities::four_bytes(b@, 0) == M::encoding(message@).len()
                &&& b@.skip(4) == M::encoding(message@)
            },
            Err(error) => M::encoding(message@).len() >= 0x1_0000_0000 && error@
                == ErrorView::MessageTooLarge(M::encoding(message@).len()),
        },
{
    if written is Ok {
        let encoded = M::encoding(message@);
        bytes::be32_round_trip(encoded.len() as u32);
        let b = written->Ok_0@;
        assert(b.skip(4) =~= encoded);
        let prefix = bytes::be32(encoded.len() as u32);
        assert(b[0] == prefix[0] && b[1] == prefix[1] && b[2] == prefix[2] && b[3] == prefix[3]);
    }
}

} // verus!
