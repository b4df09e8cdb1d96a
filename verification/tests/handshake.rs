//! Tests of the one-directional handshake, from greeting to close code.

use iroh_hyde_auth::incoming::{
    close_accepted, close_denied, AfterHandshakeOutcome, Authenticated, Challenged,
    DEFAULT_MAX_SKEW_SECS,
};
use iroh_hyde_auth::outgoing::{
    client_auth, close_verdict, hello, respond, respond_at, BeforeConnectOutcome, ConnectionClosed,
};
use iroh_hyde_auth::wire::{ClientAuth, ClientHello, ServerChallenge};
use iroh_hyde_auth::{
    incoming, outgoing, AuthProtocol, Error, FallbackPolicy, HydeSigner, HydeVerifier,
    IncomingAuthHook, InstitutionalSigner, Roster, VerifyError, ALPN, MUTUAL_ALPN,
};

const ID: [u8; 32] = [0x22; 32];
const APP: &[u8] = b"my-app/0";

fn signer() -> HydeSigner {
    HydeSigner::generate(FallbackPolicy::Software).unwrap()
}

fn acceptor(trusted: &HydeSigner) -> (IncomingAuthHook, AuthProtocol<HydeVerifier>) {
    let mut roster = Roster::new();
    roster.insert(trusted.verifying_key(), "hospital-a");
    incoming(HydeVerifier::new(roster))
}

/// Runs the whole exchange, with the initiator's answer made at `now`.
fn exchange(
    protocol: &AuthProtocol<HydeVerifier>,
    signer: &mut HydeSigner,
    my_id: &[u8; 32],
    remote_id: &[u8; 32],
    challenged_at: u64,
    now: u64,
) -> Result<Authenticated, Error> {
    let session = Challenged::with_nonce(&hello(), [0x11; 32], challenged_at)?;
    let auth = respond_at(signer, &session.message(), my_id, now)?;
    protocol.run_handshake(session, &auth, remote_id)
}

fn closed(code: u64) -> ConnectionClosed {
    ConnectionClosed { application_code: Some(code), text: "closed by peer".to_string() }
}

fn is_let_in(hook: &IncomingAuthHook, alpn: &[u8], id: &[u8; 32]) -> bool {
    match hook.after_handshake(alpn, id) {
        AfterHandshakeOutcome::Accept => true,
        AfterHandshakeOutcome::Reject { error_code, reason } => {
            assert_eq!(error_code, 403);
            assert_eq!(reason, b"not authenticated");
            false
        }
    }
}

#[test]
fn trusted_initiator_is_let_in() {
    let mut s = signer();
    let (mut hook, protocol) = acceptor(&s);
    assert!(!is_let_in(&hook, APP, &ID));
    assert!(is_let_in(&hook, &ALPN, &ID));

    let result = exchange(&protocol, &mut s, &ID, &ID, 1000, 1000);
    let authenticated = result.as_ref().unwrap();
    assert_eq!(authenticated.remote(), ID);
    assert_eq!(authenticated.institution(), "hospital-a");
    let close = protocol.accept(&mut hook, &result);
    assert_eq!((close.code, close.reason), (1, b"accepted".to_vec()));
    assert!(close_verdict(closed(1)).is_ok());

    assert!(is_let_in(&hook, APP, &ID));
    assert!(!is_let_in(&hook, APP, &[0x33; 32]));
}

#[test]
fn outsider_is_not_let_in() {
    let (mut hook, protocol) = acceptor(&signer());
    let mut outsider = signer();
    let result = exchange(&protocol, &mut outsider, &ID, &ID, 1000, 1000);
    match &result {
        Err(Error::Denied(text)) => assert_eq!(text, "verifying key is not a trusted institution"),
        other => panic!("{other:?}"),
    }
    let close = protocol.accept(&mut hook, &result);
    assert_eq!((close.code, close.reason), (403, b"denied".to_vec()));
    assert!(!is_let_in(&hook, APP, &ID));
    match close_verdict(closed(403)) {
        Err(Error::Denied(text)) => assert_eq!(text, "rejected by remote acceptor"),
        other => panic!("{other:?}"),
    }
}

#[test]
fn relayed_assertion_is_refused() {
    let mut s = signer();
    let (_, protocol) = acceptor(&s);
    let result = exchange(&protocol, &mut s, &ID, &[0x33; 32], 1000, 1000);
    match result {
        Err(Error::Denied(text)) => assert_eq!(text, "signature verification failed"),
        other => panic!("{other:?}"),
    }
}

#[test]
fn replayed_assertion_is_refused() {
    let mut s = signer();
    let (_, protocol) = acceptor(&s);
    let first = Challenged::with_nonce(&hello(), [0x11; 32], 1000).unwrap();
    let auth = respond_at(&mut s, &first.message(), &ID, 1000).unwrap();
    let second = Challenged::with_nonce(&hello(), [0xAB; 32], 1000).unwrap();
    assert!(matches!(protocol.run_handshake(second, &auth, &ID), Err(Error::Denied(_))));
    assert!(protocol.run_handshake(first, &auth, &ID).is_ok());
}

#[test]
fn altered_timestamp_is_refused() {
    let mut s = signer();
    let (_, protocol) = acceptor(&s);
    let session = Challenged::with_nonce(&hello(), [0x11; 32], 1000).unwrap();
    let mut auth = respond_at(&mut s, &session.message(), &ID, 1000).unwrap();
    auth.client_unix_secs = 1001;
    assert!(matches!(protocol.run_handshake(session, &auth, &ID), Err(Error::Denied(_))));
}

#[test]
fn timestamp_has_to_be_within_the_tolerance() {
    assert_eq!(DEFAULT_MAX_SKEW_SECS, 300);
    let mut s = signer();
    let (_, protocol) = acceptor(&s);
    assert!(exchange(&protocol, &mut s, &ID, &ID, 1000, 1300).is_ok());
    assert!(exchange(&protocol, &mut s, &ID, &ID, 1000, 700).is_ok());
    for now in [699, 1301] {
        assert!(matches!(
            exchange(&protocol, &mut s, &ID, &ID, 1000, now),
            Err(Error::ClockSkew)
        ));
    }
    let strict = protocol.clone().with_max_skew(Some(0));
    assert!(matches!(exchange(&strict, &mut s, &ID, &ID, 1000, 1001), Err(Error::ClockSkew)));
    let lax = protocol.with_max_skew(None);
    assert!(exchange(&lax, &mut s, &ID, &ID, 1000, u64::MAX).is_ok());
}

#[test]
fn unsupported_versions_are_refused() {
    let (_, protocol) = acceptor(&signer());
    assert_eq!(hello().version, 0);
    assert!(matches!(protocol.challenge(&ClientHello { version: 1 }), Err(Error::Version(1))));
    assert!(matches!(
        Challenged::with_nonce(&ClientHello { version: 9 }, [0; 32], 0),
        Err(Error::Version(9))
    ));
    let challenge = ServerChallenge { version: 2, nonce: [0; 32], server_unix_secs: 0 };
    assert!(matches!(respond_at(&mut signer(), &challenge, &ID, 0), Err(Error::Version(2))));
}

#[test]
fn challenges_are_fresh_and_answered_now() {
    let mut s = signer();
    let (_, protocol) = acceptor(&s);
    let one = protocol.challenge(&hello()).unwrap();
    let two = protocol.challenge(&hello()).unwrap();
    assert_ne!(one.message().nonce, two.message().nonce);
    assert_eq!(one.message().version, 0);
    let auth = respond(&mut s, &one.message(), &ID).unwrap();
    assert_eq!(auth.verifying_key, s.verifying_key());
    assert!(protocol.run_handshake(one, &auth, &ID).is_ok());
}

#[test]
fn signer_errors_end_the_handshake() {
    let failed = client_auth(vec![1], Err(Error::Signer("locked".to_string())), 5);
    assert!(matches!(failed, Err(Error::Signer(text)) if text == "locked"));
    let ClientAuth { verifying_key, signature, client_unix_secs } =
        client_auth(vec![1], Ok(vec![2]), 5).unwrap();
    assert_eq!((verifying_key, signature, client_unix_secs), (vec![1], vec![2], 5));
}

#[test]
fn verifier_answers_become_results() {
    let ok = Authenticated::from_answer(&ID, Ok("x".to_string())).unwrap();
    assert_eq!((ok.remote(), ok.institution()), (ID, "x"));
    match Authenticated::from_answer(&ID, Err(VerifyError::Revoked)) {
        Err(Error::Denied(text)) => assert_eq!(text, "institution has been revoked"),
        other => panic!("{other:?}"),
    }
    assert_eq!(close_accepted().code, 1);
    assert_eq!(close_denied().reason, b"denied");
}

#[test]
fn other_ends_of_the_connection_are_transport_errors() {
    // The whole code counts, not only its low 32 bits.
    for code in [0, 2, 404, 0x1_0000_0001, 0x1_0000_0193, (1 << 62) - 1] {
        match close_verdict(closed(code)) {
            Err(Error::Transport(text)) => assert_eq!(text, "closed by peer"),
            other => panic!("{other:?}"),
        }
    }
    let lost = ConnectionClosed { application_code: None, text: "timed out".to_string() };
    assert!(matches!(close_verdict(lost), Err(Error::Transport(text)) if text == "timed out"));
}

#[test]
fn auth_connections_are_not_intercepted() {
    let (hook, _task) = outgoing::<HydeSigner, ()>(signer());
    assert!(matches!(hook.before_connect(&ALPN), Some(BeforeConnectOutcome::Accept)));
    assert!(hook.before_connect(APP).is_none());
    assert!(hook.before_connect(&MUTUAL_ALPN).is_none());
}
