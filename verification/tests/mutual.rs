//! Tests of the mutual handshake.

use std::sync::Arc;

use iroh_hyde_auth::incoming::{AfterHandshakeOutcome, Authenticated};
use iroh_hyde_auth::mutual::{
    make_challenge, make_response, prove_at, refuse_acceptor, MutualChallenged, MutualGreeting,
    MutualStep,
};
use iroh_hyde_auth::outgoing::{
    close_verdict, connect_outcome, settle, BeforeConnectOutcome, ConnectionClosed,
};
use iroh_hyde_auth::peers::Request;
use iroh_hyde_auth::wire::{MutualChallenge, MutualHello, MutualResponse};
use iroh_hyde_auth::{
    mutual, Error, FallbackPolicy, HydeSigner, HydeVerifier, InstitutionVerifier,
    InstitutionalSigner, MutualAuthHook, MutualAuthProtocol, MutualAuthTask, Roster, VerifyError,
    ALPN, MUTUAL_ALPN,
};

const ID_A: [u8; 32] = [0xA1; 32];
const ID_B: [u8; 32] = [0xB2; 32];

/// A signer whose signature is its key followed by the message.
#[derive(Debug, Clone)]
struct Plain(u8);

impl InstitutionalSigner for Plain {
    fn verifying_key(&self) -> Vec<u8> {
        vec![self.0]
    }

    fn sign(&mut self, message: &[u8]) -> Result<Vec<u8>, Error> {
        if self.0 == 0 {
            return Err(Error::Signer("no key".to_string()));
        }
        let mut signature = vec![self.0];
        signature.extend_from_slice(message);
        Ok(signature)
    }
}

/// The verifier of such signatures.
#[derive(Debug, Clone)]
struct Matching(Roster);

impl InstitutionVerifier for Matching {
    fn verify(&self, key: &[u8], message: &[u8], signature: &[u8]) -> Result<String, VerifyError> {
        let expected: Vec<u8> = key.iter().chain(message.iter()).copied().collect();
        match self.0.label(key) {
            None => Err(VerifyError::UntrustedKey),
            Some(_) if signature != expected => Err(VerifyError::BadSignature),
            Some(label) => Ok(label.to_string()),
        }
    }
}

type Node = (
    MutualAuthHook,
    MutualAuthProtocol<Matching>,
    MutualAuthTask<Plain, Matching, u32>,
);

fn node(key: u8, trusts: &[(u8, &str)]) -> Node {
    let mut roster = Roster::new();
    for (key, label) in trusts {
        roster.insert(vec![*key], label);
    }
    mutual(Plain(key), Matching(roster))
}

#[test]
fn trusting_peers_admit_each_other() {
    let (mut hook_a, _, mut task_a) = node(1, &[(2, "b")]);
    let (mut hook_b, protocol_b, mut task_b) = node(2, &[(1, "a")]);
    hook_b.publish(&ID_B);

    assert!(matches!(task_a.handle_request(&hook_a, &ID_B, 7), Request::Dial));
    let mut signer = task_a.dialer();
    let (verifier, max_skew) = task_a.checks();
    assert_eq!(max_skew, Some(300));

    let greeting = MutualGreeting::with_nonce([5; 32]);
    let hello = greeting.message();
    assert_eq!((hello.version, hello.nonce), (0, [5; 32]));
    let local = hook_b.own_id().unwrap();
    let (challenge, session) = protocol_b.challenge(task_b.signer_mut(), &local, &hello).unwrap();
    let step = greeting.handshake(&mut signer, &*verifier, max_skew, &challenge, &ID_B, &ID_A);
    let response = match step {
        MutualStep::Respond(response) => response,
        other => panic!("{other:?}"),
    };
    let result = protocol_b.handshake(session, &response, &ID_A);
    let authenticated = result.as_ref().unwrap();
    assert_eq!((authenticated.remote(), authenticated.institution()), (ID_A, "a"));
    let close = protocol_b.accept(&mut hook_b, &result);
    assert_eq!((close.code, close.reason), (1, b"accepted".to_vec()));

    let answers = task_a.handle_completion(&mut hook_a, &ID_B, &Ok(()));
    assert_eq!(answers.len(), 1);
    assert_eq!(answers[0].0, 7);
    assert!(matches!(hook_a.after_handshake(b"app", &ID_B), AfterHandshakeOutcome::Accept));
    assert!(matches!(hook_b.after_handshake(b"app", &ID_A), AfterHandshakeOutcome::Accept));
    // The reverse direction needs no handshake of its own.
    assert!(matches!(task_b.handle_request(&hook_b, &ID_A, 8), Request::Admit(8)));
    assert!(matches!(task_a.handle_request(&hook_a, &ID_B, 9), Request::Admit(9)));
}

/// A challenge of `b` for the nonce that `a` greets with.
fn challenged(time_b: u64) -> (MutualChallenge, MutualChallenged) {
    let (_, protocol_b, _) = node(2, &[(1, "a")]);
    let hello = MutualHello { version: 0, nonce: [5; 32] };
    protocol_b.challenge_at(&mut Plain(2), &ID_B, &hello, [6; 32], time_b).unwrap()
}

fn check(
    trusts: &[(u8, &str)],
    max_skew: Option<u64>,
    challenge: &MutualChallenge,
    peer: &[u8; 32],
    checked: u64,
) -> Option<(u32, Vec<u8>, String)> {
    let (_, _, task) = node(1, trusts);
    let (verifier, _) = task.checks();
    let greeting = MutualGreeting::with_nonce([5; 32]);
    match greeting.check_at(&*verifier, max_skew, challenge, peer, checked) {
        None => None,
        Some(MutualStep::Abort { close: Some(close), error }) => {
            Some((close.code, close.reason, error.message()))
        }
        other => panic!("{other:?}"),
    }
}

#[test]
fn initiator_checks_the_acceptor_first() {
    let (challenge, _) = challenged(1000);
    let trusts: &[(u8, &str)] = &[(2, "b")];
    assert!(check(trusts, Some(300), &challenge, &ID_B, 1000).is_none());
    assert!(check(trusts, Some(300), &challenge, &ID_B, 1300).is_none());
    assert!(check(trusts, None, &challenge, &ID_B, u64::MAX).is_none());
    assert_eq!(
        check(trusts, Some(300), &challenge, &ID_B, 1301),
        Some((403, b"skew".to_vec(), "clock skew outside allowed window".to_string()))
    );
    assert_eq!(
        check(&[], Some(300), &challenge, &ID_B, 1000),
        Some((
            403,
            b"peer-untrusted".to_vec(),
            "authentication denied: acceptor failed verification: \
             verifying key is not a trusted institution"
                .to_string()
        ))
    );
    // An assertion of another endpoint.
    assert_eq!(
        check(trusts, Some(300), &challenge, &ID_A, 1000),
        Some((
            403,
            b"peer-untrusted".to_vec(),
            "authentication denied: acceptor failed verification: signature verification failed"
                .to_string()
        ))
    );
    let (mut odd, _) = challenged(1000);
    odd.version = 4;
    assert_eq!(
        check(trusts, Some(300), &odd, &ID_B, 9999),
        Some((403, b"version".to_vec(), "unsupported protocol version: 4".to_string()))
    );
}

#[test]
fn acceptor_decides_on_the_initiator() {
    let (_, protocol_b, _) = node(2, &[(1, "a")]);
    let respond = |key: u8, nonce: [u8; 32], id: [u8; 32], time: u64| -> MutualResponse {
        match prove_at(&mut Plain(key), &nonce, &id, time) {
            MutualStep::Respond(response) => response,
            other => panic!("{other:?}"),
        }
    };
    let decide = |response: &MutualResponse, now: u64| -> Result<Authenticated, Error> {
        let (_, session) = challenged(1000);
        protocol_b.handshake_at(session, response, &ID_A, now)
    };
    let good = respond(1, [6; 32], ID_A, 1000);
    assert_eq!(good.initiator_unix_secs, 1000);
    assert_eq!(decide(&good, 1000).unwrap().institution(), "a");
    assert!(decide(&good, 1300).is_ok());
    assert!(matches!(decide(&good, 1301), Err(Error::ClockSkew)));
    assert!(matches!(decide(&good, 699), Err(Error::ClockSkew)));
    // Not on the roster; another nonce; another endpoint; another time.
    assert!(matches!(decide(&respond(3, [6; 32], ID_A, 1000), 1000), Err(Error::Denied(_))));
    assert!(matches!(decide(&respond(1, [7; 32], ID_A, 1000), 1000), Err(Error::Denied(_))));
    assert!(matches!(decide(&respond(1, [6; 32], ID_B, 1000), 1000), Err(Error::Denied(_))));
    let mut altered = respond(1, [6; 32], ID_A, 1000);
    altered.initiator_unix_secs = 1001;
    assert!(matches!(decide(&altered, 1000), Err(Error::Denied(_))));

    let lax = protocol_b.clone().with_max_skew(None);
    let (_, session) = challenged(1000);
    assert!(lax.handshake_at(session, &good, &ID_A, 0).is_ok());
}

#[test]
fn reflected_assertion_is_refused() {
    // The acceptor's own assertion, sent back to it as if it were the initiator's.
    let (_, protocol, mut task) = node(2, &[(2, "self")]);
    let hello = MutualHello { version: 0, nonce: [6; 32] };
    let (challenge, session) =
        protocol.challenge_at(task.signer_mut(), &ID_B, &hello, [6; 32], 1000).unwrap();
    let reflected = MutualResponse {
        verifying_key: challenge.verifying_key,
        signature: challenge.signature,
        initiator_unix_secs: 1000,
    };
    match protocol.handshake_at(session, &reflected, &ID_B, 1000) {
        Err(Error::Denied(text)) => assert_eq!(text, "signature verification failed"),
        other => panic!("{other:?}"),
    }
}

#[test]
fn refused_initiator_is_not_recorded() {
    let (mut hook, protocol, _) = node(2, &[]);
    let close = protocol.accept(&mut hook, &Err(Error::ClockSkew));
    assert_eq!((close.code, close.reason), (403, b"denied".to_vec()));
    match hook.after_handshake(b"app", &ID_A) {
        AfterHandshakeOutcome::Reject { error_code, reason } => {
            assert_eq!((error_code, reason), (403, b"not mutually authenticated".to_vec()));
        }
        other => panic!("{other:?}"),
    }
    assert!(matches!(hook.after_handshake(&MUTUAL_ALPN, &ID_A), AfterHandshakeOutcome::Accept));
    assert!(matches!(hook.before_connect(&MUTUAL_ALPN), Some(BeforeConnectOutcome::Accept)));
    assert!(hook.before_connect(&ALPN).is_none());
    assert!(hook.before_connect(b"app").is_none());
}

#[test]
fn own_id_is_published_once() {
    let (mut hook, _, _) = node(2, &[]);
    match hook.own_id() {
        Err(Error::Signer(text)) => {
            assert_eq!(text, "local endpoint id not set — spawn the MutualAuthTask");
        }
        other => panic!("{other:?}"),
    }
    hook.publish(&ID_B);
    hook.publish(&ID_A);
    assert_eq!(hook.own_id().unwrap(), ID_B);
}

#[test]
fn acceptor_refuses_unsupported_versions() {
    let (_, protocol, mut task) = node(2, &[]);
    let hello = MutualHello { version: 7, nonce: [0; 32] };
    assert!(matches!(
        protocol.challenge(task.signer_mut(), &ID_B, &hello),
        Err(Error::Version(7))
    ));
    assert!(matches!(
        protocol.challenge_at(task.signer_mut(), &ID_B, &hello, [0; 32], 0),
        Err(Error::Version(7))
    ));
}

#[test]
fn signer_errors_are_handed_on() {
    let (_, protocol, mut task) = node(0, &[]);
    let hello = MutualHello { version: 0, nonce: [0; 32] };
    assert!(matches!(
        protocol.challenge(task.signer_mut(), &ID_B, &hello),
        Err(Error::Signer(t)) if t == "no key"
    ));
    match prove_at(&mut Plain(0), &[0; 32], &ID_A, 0) {
        MutualStep::Abort { close: None, error: Error::Signer(text) } => {
            assert_eq!(text, "no key");
        }
        other => panic!("{other:?}"),
    }
    let made = make_challenge([0; 32], vec![1], Err(Error::Signer("x".to_string())), 0);
    assert!(matches!(made, Err(Error::Signer(_))));
    assert!(matches!(make_response(vec![1], Ok(vec![2]), 3), MutualStep::Respond(_)));
    match refuse_acceptor(&VerifyError::Revoked) {
        MutualStep::Abort { close: Some(close), error: Error::Denied(text) } => {
            assert_eq!(close.reason, b"peer-untrusted");
            assert_eq!(text, "acceptor failed verification: institution has been revoked");
        }
        other => panic!("{other:?}"),
    }
}

#[test]
fn greetings_are_fresh() {
    assert_ne!(MutualGreeting::new().message().nonce, MutualGreeting::new().message().nonce);
}

#[test]
fn mutual_handshake_with_the_hyde_backend() {
    let a = HydeSigner::generate(FallbackPolicy::Software).unwrap();
    let b = HydeSigner::generate(FallbackPolicy::Software).unwrap();
    let mut roster_a = Roster::new();
    roster_a.insert(b.verifying_key(), "b");
    let mut roster_b = Roster::new();
    roster_b.insert(a.verifying_key(), "a");
    let (mut hook_a, _, mut task_a) = mutual::<_, _, u32>(a, HydeVerifier::new(roster_a));
    let (mut hook_b, protocol_b, mut task_b) = mutual::<_, _, u32>(b, HydeVerifier::new(roster_b));
    hook_b.publish(&ID_B);

    // A dials B: the handshake runs first, and B then lets A in.
    assert!(hook_a.before_connect(b"echo").is_none());
    assert!(matches!(task_a.handle_request(&hook_a, &ID_B, 1), Request::Dial));
    let greeting = MutualGreeting::new();
    let local = hook_b.own_id().unwrap();
    let (challenge, session) =
        protocol_b.challenge(task_b.signer_mut(), &local, &greeting.message()).unwrap();
    let (verifier, max_skew) = task_a.checks();
    assert!(greeting.check_at(&*verifier, None, &challenge, &ID_A, 0).is_some());
    let step =
        greeting.handshake(task_a.signer_mut(), &*verifier, max_skew, &challenge, &ID_B, &ID_A);
    let response = match step {
        MutualStep::Respond(response) => response,
        other => panic!("{other:?}"),
    };
    let result = protocol_b.handshake(session, &response, &ID_A);
    assert_eq!(result.as_ref().unwrap().institution(), "a");
    let close = protocol_b.accept(&mut hook_b, &result);
    let verdict = close_verdict(ConnectionClosed {
        application_code: Some(close.code.into()),
        text: String::new(),
    });
    let answers = task_a.handle_completion(&mut hook_a, &ID_B, &verdict.map_err(Arc::new));
    let outcomes: Vec<_> =
        answers.into_iter().map(|(_, reply)| connect_outcome(&settle(Some(reply)))).collect();
    assert!(matches!(outcomes[..], [BeforeConnectOutcome::Accept]));
    assert!(matches!(hook_b.after_handshake(b"echo", &ID_A), AfterHandshakeOutcome::Accept));

    // And the reverse direction.
    assert!(matches!(task_b.handle_request(&hook_b, &ID_A, 2), Request::Admit(2)));
    assert!(matches!(hook_a.after_handshake(b"echo", &ID_B), AfterHandshakeOutcome::Accept));
}
