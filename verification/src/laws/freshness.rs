//! Clock readings, tolerances and nonces: what the operations make of them.

use crate::error::Error;
use crate::incoming::{AuthProtocol, Authenticated, Challenged};
use crate::mutual;
use crate::mutual::{MutualAuthProtocol, MutualChallenged, MutualGreeting, MutualStep};
use crate::outgoing;
use crate::signer::InstitutionalSigner;
use crate::trust::InstitutionVerifier;
use crate::util;
use crate::wire::{
    ClientAuth, ClientHello, EndpointId, MutualChallenge, MutualHello, MutualResponse,
    ServerChallenge,
};
use std::time::{Duration, SystemTime};
use vstd::prelude::*;

verus! {

/// The current time is the whole seconds between the Unix epoch and what the machine's clock
/// reads; it is 0 only where those are 0 or the clock is before the epoch.
pub proof fn time_is_what_the_clock_reads(secs: u64)
    requires
        call_ensures(util::unix_secs, (), secs),
    ensures
        exists|reading: SystemTime|
            call_ensures(SystemTime::now, (), reading) && (match #[trigger] util::since_epoch(
                reading,
            ) {
                Some(span) => secs == util::whole_secs(span),
                None => secs == 0,
            }),
{
    let now = choose|now: SystemTime|
        call_ensures(SystemTime::now, (), now) && (util::since_epoch(now) matches Some(span)
            ==> secs == util::whole_secs(span)) && (util::since_epoch(now) is None ==> secs == 0)
            && secs == #[trigger] util::secs_at(now);
    assert(util::since_epoch(now) is None || util::since_epoch(now) is Some);
}

/// The seconds of a reading are those of the span since the epoch, to the second.
pub proof fn seconds_of_a_reading(reading: SystemTime, span: Duration)
    ensures
        util::since_epoch(reading) == Some(span) ==> util::secs_at(reading) == util::whole_secs(
            span,
        ),
        util::since_epoch(reading) is None ==> util::secs_at(reading) == 0,
        util::clock_gave(reading) <==> call_ensures(SystemTime::now, (), reading),
{
}

/// Whether these are the whole seconds of something that the machine's clock read.
pub open spec fn read_off_the_clock(secs: u64) -> bool {
    exists|reading: SystemTime|
        call_ensures(SystemTime::now, (), reading) && (match #[trigger] util::since_epoch(reading) {
            Some(span) => secs == util::whole_secs(span),
            None => secs == 0,
        })
}

/// A reading of the clock gives seconds that are read off it.
proof fn readings_are_read_off(reading: SystemTime)
    requires
        util::clock_gave(reading),
    ensures
        read_off_the_clock(util::secs_at(reading)),
{
    assert(util::since_epoch(reading) is None || util::since_epoch(reading) is Some);
}

/// Two timestamps are within a tolerance exactly if neither is later than the other by more than
/// that many seconds; without a tolerance any two are.
pub proof fn tolerance_is_a_distance(max: Option<u64>, ours: u64, theirs: u64, ok: bool)
    requires
        call_ensures(util::is_fresh, (max, ours, theirs), ok),
    ensures
        match max {
            Some(limit) => !ok <==> ours > theirs + limit || theirs > ours + limit,
            None => ok,
        },
        ok == util::fresh(max, ours, theirs),
{
}

/// Whether two timestamps lie further apart than the tolerance allows.
pub open spec fn too_far_apart(max: Option<u64>, ours: u64, theirs: u64) -> bool {
    match max {
        Some(limit) => ours > theirs + limit || theirs > ours + limit,
        None => false,
    }
}

/// The acceptor refuses an assertion for its timestamp exactly if that lies further from the time
/// of the challenge than the tolerance allows.
pub proof fn acceptor_refuses_for_skew_exactly<V: InstitutionVerifier>(
    protocol: AuthProtocol<V>,
    session: Challenged,
    auth: ClientAuth,
    remote: EndpointId,
    result: Result<Authenticated, Error>,
)
    requires
        call_ensures(
            AuthProtocol::<V>::run_handshake,
            (&protocol, session, &auth, &remote),
            result,
        ),
    ensures
        (result matches Err(error) && error@ is ClockSkew) <==> too_far_apart(
            protocol.max_skew(),
            session.time(),
            auth.client_unix_secs,
        ),
{
}

/// The acceptor of a mutual handshake refuses an assertion for its timestamp exactly if that lies
/// further from its own time than the tolerance allows.
pub proof fn mutual_acceptor_refuses_for_skew_exactly<V: InstitutionVerifier>(
    protocol: MutualAuthProtocol<V>,
    session: MutualChallenged,
    response: MutualResponse,
    remote: EndpointId,
    now: u64,
    result: Result<Authenticated, Error>,
)
    requires
        call_ensures(
            MutualAuthProtocol::<V>::handshake_at,
            (&protocol, session, &response, &remote, now),
            result,
        ),
    ensures
        (result matches Err(error) && error@ is ClockSkew) <==> too_far_apart(
            protocol.max_skew(),
            now,
            response.initiator_unix_secs,
        ),
{
}

/// The same where the acceptor reads its own clock.
pub proof fn mutual_acceptor_goes_by_its_clock<V: InstitutionVerifier>(
    protocol: MutualAuthProtocol<V>,
    session: MutualChallenged,
    response: MutualResponse,
    remote: EndpointId,
    result: Result<Authenticated, Error>,
)
    requires
        call_ensures(
            MutualAuthProtocol::<V>::handshake,
            (&protocol, session, &response, &remote),
            result,
        ),
    ensures
        exists|now: u64|
            #![trigger read_off_the_clock(now)]
            read_off_the_clock(now) && ((result matches Err(error) && error@ is ClockSkew)
                <==> too_far_apart(protocol.max_skew(), now, response.initiator_unix_secs)),
{
    let at = choose|at: SystemTime|
        util::clock_gave(at) && mutual::may_conclude(
            protocol.judge(),
            protocol.max_skew(),
            session.nonce(),
            response@,
            remote@,
            #[trigger] util::secs_at(at),
            crate::error::outcome(result),
        );
    readings_are_read_off(at);
    assert(read_off_the_clock(util::secs_at(at)));
}

/// The initiator of a mutual handshake gives up for skew exactly if the acceptor speaks its version
/// and its timestamp lies further from the initiator's time than the tolerance allows.
pub proof fn mutual_initiator_refuses_for_skew_exactly<V: InstitutionVerifier>(
    greeting: MutualGreeting,
    judge: V,
    max_skew: Option<u64>,
    challenge: MutualChallenge,
    peer: EndpointId,
    checked: u64,
    refused: Option<MutualStep>,
)
    requires
        call_ensures(
            MutualGreeting::check_at::<V>,
            (&greeting, &judge, max_skew, &challenge, &peer, checked),
            refused,
        ),
    ensures
        (refused matches Some(MutualStep::Abort { close: _, error }) && error@ is ClockSkew) <==> (
        challenge.version == 0 && too_far_apart(max_skew, checked, challenge.acceptor_unix_secs)),
{
}

/// An initiator's assertion carries the time that its clock read.
pub proof fn assertions_carry_the_clock_time<S: InstitutionalSigner>(
    signer: &mut S,
    challenge: ServerChallenge,
    my_id: EndpointId,
    auth: Result<ClientAuth, Error>,
)
    requires
        call_ensures(outgoing::respond::<S>, (signer, &challenge, &my_id), auth),
    ensures
        auth matches Ok(a) ==> read_off_the_clock(a.client_unix_secs),
{
    let at = choose|at: SystemTime|
        util::clock_gave(at) && outgoing::may_respond(
            *signer,
            challenge,
            my_id@,
            #[trigger] util::secs_at(at),
            crate::error::outcome(auth),
        );
    readings_are_read_off(at);
}

/// A challenge is made with a nonce that the random generator gave and at the time that the clock
/// read.
pub proof fn challenges_are_fresh<V: InstitutionVerifier>(
    protocol: AuthProtocol<V>,
    hello: ClientHello,
    session: Result<Challenged, Error>,
)
    requires
        call_ensures(AuthProtocol::<V>::challenge, (&protocol, &hello), session),
    ensures
        session matches Ok(s) ==> util::drawn(s.nonce()) && read_off_the_clock(s.time()),
        session is Ok <==> hello.version == 0,
{
    if session is Ok {
        let at = choose|at: SystemTime|
            util::clock_gave(at) && session->Ok_0.time() == #[trigger] util::secs_at(at);
        readings_are_read_off(at);
    }
}

/// A mutual challenge is made with a nonce that the random generator gave, which is the one that
/// the session holds the initiator's assertion against, and at the time that the clock read.
pub proof fn mutual_challenges_are_fresh<S: InstitutionalSigner, V: InstitutionVerifier>(
    protocol: MutualAuthProtocol<V>,
    signer: &mut S,
    local_id: EndpointId,
    hello: MutualHello,
    made: Result<(MutualChallenge, MutualChallenged), Error>,
)
    requires
        call_ensures(
            MutualAuthProtocol::<V>::challenge::<S>,
            (&protocol, signer, &local_id, &hello),
            made,
        ),
    ensures
        made matches Ok((challenge, session)) ==> {
            &&& util::drawn(challenge.nonce@)
            &&& session.nonce() == challenge.nonce@
            &&& read_off_the_clock(challenge.acceptor_unix_secs)
        },
{
    let (nonce, at) = choose|nonce: Seq<u8>, at: SystemTime|
        util::drawn(nonce) && util::clock_gave(at) && #[trigger] mutual::may_challenge(
            *signer,
            local_id@,
            hello,
            nonce,
            util::secs_at(at),
            mutual::challenge_view(made),
        );
    readings_are_read_off(at);
}

/// An initiator of a mutual handshake greets with a nonce that the random generator gave.
pub proof fn greetings_are_fresh(greeting: MutualGreeting)
    requires
        call_ensures(MutualGreeting::new, (), greeting),
    ensures
        util::drawn(greeting.nonce()),
{
}

/// What an initiator sends in a mutual handshake carries the time that its clock read.
pub proof fn mutual_responses_carry_the_clock_time<S: InstitutionalSigner, V: InstitutionVerifier>(
    greeting: MutualGreeting,
    signer: &mut S,
    judge: V,
    max_skew: Option<u64>,
    challenge: MutualChallenge,
    peer: EndpointId,
    my_id: EndpointId,
    step: MutualStep,
)
    requires
        call_ensures(
            MutualGreeting::handshake::<S, V>,
            (greeting, signer, &judge, max_skew, &challenge, &peer, &my_id),
            step,
        ),
    ensures
        step matches MutualStep::Respond(response) ==> {
            &&& read_off_the_clock(response.initiator_unix_secs)
            &&& exists|checked: u64|
                #![trigger read_off_the_clock(checked)]
                read_off_the_clock(checked) && !too_far_apart(
                    max_skew,
                    checked,
                    challenge.acceptor_unix_secs,
                )
        },
{
    let (checked, now) = choose|checked: SystemTime, now: SystemTime|
        util::clock_gave(checked) && util::clock_gave(now) && #[trigger] mutual::may_step(
            *signer,
            judge,
            max_skew,
            greeting.nonce(),
            challenge,
            peer@,
            my_id@,
            util::secs_at(checked),
            util::secs_at(now),
            step@,
        );
    readings_are_read_off(checked);
    readings_are_read_off(now);
    if let MutualStep::Respond(response) = step {
        crate::laws::mutual::acceptor_is_verified_first(
            *signer,
            judge,
            max_skew,
            greeting.nonce(),
            challenge,
            peer@,
            my_id@,
            util::secs_at(checked),
            util::secs_at(now),
            response@,
        );
        assert(read_off_the_clock(util::secs_at(checked)));
    }
}

} // verus!
