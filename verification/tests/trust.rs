//! Tests of the roster, the hyde backend and the words of errors.

use std::sync::Arc;

use iroh_hyde_auth::error::transport;
use iroh_hyde_auth::outgoing::{connect_outcome, settle, BeforeConnectOutcome};
use iroh_hyde_auth::signer::signed;
use iroh_hyde_auth::trust::InstitutionId;
use iroh_hyde_auth::util::{epoch_secs, is_fresh, unix_secs};
use iroh_hyde_auth::{
    Error, FallbackPolicy, HydeSigner, HydeVerifier, InstitutionVerifier, InstitutionalSigner,
    Roster, SigningAlgorithm, VerifyError,
};

#[test]
fn roster_maps_keys_to_labels() {
    let mut roster = Roster::default();
    assert!(roster.is_empty());
    assert_eq!(roster.len(), 0);
    roster.insert(vec![1, 2], "a").insert(vec![3], "b");
    assert!(!roster.is_empty());
    assert_eq!(roster.len(), 2);
    assert!(roster.contains(&[1, 2]));
    assert!(!roster.contains(&[1]));
    assert_eq!(roster.label(&[3]), Some("b"));
    assert_eq!(roster.label(&[4]), None);
    // A key that is added once more takes the new label.
    roster.insert(vec![3], "c");
    assert_eq!(roster.len(), 2);
    assert_eq!(roster.label(&[3]), Some("c"));
    assert_eq!(roster.label(&[1, 2]), Some("a"));
    // A copy stands on its own.
    let copy = roster.clone();
    roster.insert(vec![5], "d");
    assert_eq!(copy.len(), 2);
    assert_eq!(copy.label(&[3]), Some("c"));
    assert!(!copy.contains(&[5]));
}

#[test]
fn roster_concludes_from_the_crypto_check() {
    let mut roster = Roster::new();
    roster.insert(vec![1], "a");
    assert_eq!(roster.conclude(&[1], Ok(true)).unwrap(), "a");
    assert_eq!(roster.conclude(&[2], Ok(true)).unwrap(), "");
    assert!(matches!(roster.conclude(&[1], Ok(false)), Err(VerifyError::BadSignature)));
    match roster.conclude(&[1], Err("broken".to_string())) {
        Err(VerifyError::Crypto(text)) => assert_eq!(text, "broken"),
        other => panic!("{other:?}"),
    }
}

#[test]
fn hyde_verifier_tells_the_refusals_apart() {
    let mut signer = HydeSigner::generate(FallbackPolicy::Software).unwrap();
    let vk = signer.verifying_key();
    assert_eq!(vk.len(), 1952);
    let sig = signer.sign(b"message").unwrap();
    assert_eq!(sig.len(), 3309);
    let mut roster = Roster::new();
    roster.insert(vk.clone(), "clinic").insert(vec![7; 5], "odd");
    let verifier = HydeVerifier::new(roster);
    assert_eq!(verifier.verify(&vk, b"message", &sig).unwrap(), "clinic");
    assert_eq!(verifier.clone().verify(&vk, b"message", &sig).unwrap(), "clinic");
    assert!(matches!(verifier.verify(&vk, b"other", &sig), Err(VerifyError::BadSignature)));
    assert!(matches!(verifier.verify(&vk, b"message", &sig[1..]), Err(VerifyError::BadSignature)));
    assert!(matches!(verifier.verify(&[8; 5], b"message", &sig), Err(VerifyError::UntrustedKey)));
    match verifier.verify(&[7; 5], b"message", &sig) {
        Err(VerifyError::Crypto(text)) => assert_eq!(text, "Invalid key material"),
        other => panic!("{other:?}"),
    }
    // Under another parameter set the key has the wrong length.
    let other = verifier.with_algorithm(SigningAlgorithm::MlDsa87);
    assert!(matches!(other.verify(&vk, b"message", &sig), Err(VerifyError::Crypto(_))));
}

#[test]
fn signer_is_rebuilt_from_its_parts() {
    let mut ctx = hyde_tee::auto_detect(FallbackPolicy::Software).unwrap();
    for (algorithm, len) in [
        (SigningAlgorithm::MlDsa44, 1312),
        (SigningAlgorithm::MlDsa65, 1952),
        (SigningAlgorithm::MlDsa87, 2592),
    ] {
        let key = ctx.generate_signing_key(algorithm).unwrap();
        assert_eq!(key.verifying_key.len(), len);
    }
    let key = ctx.generate_signing_key(SigningAlgorithm::MlDsa44).unwrap();
    let vk = key.verifying_key.clone();
    let mut signer = HydeSigner::from_parts(ctx, key);
    assert_eq!(signer.verifying_key(), vk);
    let sig = signer.sign(b"m").unwrap();
    let mut roster = Roster::new();
    roster.insert(vk.clone(), "x");
    let verifier = HydeVerifier::new(roster).with_algorithm(SigningAlgorithm::MlDsa44);
    assert_eq!(verifier.verify(&vk, b"m", &sig).unwrap(), "x");
}

#[test]
fn institutions_do_not_affect_each_other() {
    let mut a = HydeSigner::generate(FallbackPolicy::Software).unwrap();
    let b = HydeSigner::generate(FallbackPolicy::Warn).unwrap();
    let (vk_a, vk_b) = (a.verifying_key(), b.verifying_key());
    assert_ne!(vk_a, vk_b);
    let sig = a.sign(b"m").unwrap();
    let mut roster = Roster::new();
    roster.insert(vk_a.clone(), "a");
    let before = HydeVerifier::new(roster.clone());
    roster.insert(vk_b.clone(), "b");
    let after = HydeVerifier::new(roster);
    assert_eq!(before.verify(&vk_a, b"m", &sig).unwrap(), "a");
    assert_eq!(after.verify(&vk_a, b"m", &sig).unwrap(), "a");
    assert!(matches!(before.verify(&vk_b, b"m", &sig), Err(VerifyError::UntrustedKey)));
    assert!(matches!(after.verify(&vk_b, b"m", &sig), Err(VerifyError::BadSignature)));
}

#[test]
fn missing_hardware_is_an_error_where_fallback_is_denied() {
    match HydeSigner::generate(FallbackPolicy::Deny) {
        Ok(signer) => assert_eq!(signer.verifying_key().len(), 1952),
        Err(error) => {
            assert_eq!(error.message(), "institutional signer failed: No TEE hardware available");
        }
    }
}

#[test]
fn signer_of_another_context_fails() {
    let mut maker = hyde_tee::auto_detect(FallbackPolicy::Software).unwrap();
    let key = maker.generate_signing_key(SigningAlgorithm::MlDsa65).unwrap();
    let other = hyde_tee::auto_detect(FallbackPolicy::Software).unwrap();
    let mut signer = HydeSigner::from_parts(other, key);
    assert!(matches!(signer.sign(b"m"), Err(Error::Signer(_))));
}

#[test]
fn failures_of_the_backend_are_signer_errors() {
    match HydeSigner::from_detected(Err("no hardware".to_string())) {
        Err(Error::Signer(text)) => assert_eq!(text, "no hardware"),
        _ => panic!("a context without a backend"),
    }
    let detected = hyde_tee::auto_detect(FallbackPolicy::Software).map_err(|e| e.to_string());
    let ctx = HydeSigner::from_detected(detected).unwrap_or_else(|e| panic!("{e:?}"));
    match HydeSigner::from_made(ctx, Err("no room".to_string())) {
        Err(Error::Signer(text)) => assert_eq!(text, "no room"),
        _ => panic!("a signer without a key"),
    }
    assert_eq!(signed(Ok(vec![1])).unwrap(), [1]);
    assert!(matches!(signed(Err("sealed".to_string())), Err(Error::Signer(t)) if t == "sealed"));
}

#[test]
fn errors_in_words() {
    let words = |e: Error| e.message();
    assert_eq!(words(transport("reset".to_string())), "transport error: reset");
    assert_eq!(
        words(Error::Codec(postcard::Error::DeserializeBadBool)),
        "codec error: Found a bool that wasn't 0 or 1"
    );
    assert_eq!(
        words(Error::Codec(postcard::Error::CollectStrError)),
        "codec error: Error while processing `collect_str` during serialization"
    );
    assert_eq!(
        words(Error::Codec(postcard::Error::DeserializeBadVarint)),
        "codec error: Found a varint that didn't terminate. Is the usize too big for this platform?"
    );
    assert_eq!(words(Error::MessageTooLarge(16385)), "message too large: 16385 bytes");
    assert_eq!(words(Error::MessageTooLarge(0)), "message too large: 0 bytes");
    assert_eq!(words(Error::Version(207)), "unsupported protocol version: 207");
    assert_eq!(words(Error::ClockSkew), "clock skew outside allowed window");
    assert_eq!(words(Error::Signer("x".to_string())), "institutional signer failed: x");
    assert_eq!(words(Error::Denied("y".to_string())), "authentication denied: y");
    assert_eq!(words(Error::AuthenticatorStopped), "authenticator task stopped");
    assert_eq!(
        words(Error::MessageTooLarge(usize::MAX)),
        format!("message too large: {} bytes", usize::MAX)
    );
}

#[test]
fn refusals_in_words() {
    assert_eq!(
        VerifyError::UntrustedKey.message(),
        "verifying key is not a trusted institution"
    );
    assert_eq!(VerifyError::BadSignature.message(), "signature verification failed");
    assert_eq!(VerifyError::Revoked.message(), "institution has been revoked");
    assert_eq!(VerifyError::Crypto("z".to_string()).message(), "crypto error: z");
}

#[test]
fn skew_is_symmetric_and_bounded() {
    assert!(is_fresh(Some(300), 1000, 1300));
    assert!(is_fresh(Some(300), 1300, 1000));
    assert!(!is_fresh(Some(300), 1000, 1301));
    assert!(!is_fresh(Some(300), 1301, 1000));
    assert!(is_fresh(Some(0), 5, 5));
    assert!(is_fresh(Some(u64::MAX), 0, u64::MAX));
    assert!(!is_fresh(Some(u64::MAX - 1), u64::MAX, 0));
    assert!(is_fresh(None, 0, u64::MAX));
}

#[test]
fn clock_before_the_epoch_reads_zero() {
    assert_eq!(epoch_secs(Some(12)), 12);
    assert_eq!(epoch_secs(None), 0);
    assert!(unix_secs() > 1_600_000_000);
}

#[test]
fn authenticator_replies_are_settled() {
    let ok = settle(Some(Ok(())));
    assert!(ok.is_ok());
    assert!(matches!(connect_outcome(&ok), BeforeConnectOutcome::Accept));
    let stopped = settle(None);
    assert!(matches!(stopped, Err(Error::AuthenticatorStopped)));
    assert!(matches!(connect_outcome(&stopped), BeforeConnectOutcome::Reject));
    let denied = settle(Some(Err(Arc::new(Error::ClockSkew))));
    assert!(matches!(connect_outcome(&denied), BeforeConnectOutcome::Reject));
    match denied {
        Err(Error::Denied(text)) => assert_eq!(text, "clock skew outside allowed window"),
        other => panic!("{other:?}"),
    }
}

/// A verifier of another kind: it knows one key, which has been revoked.
#[derive(Debug)]
struct Revoking;

impl InstitutionVerifier for Revoking {
    fn verify(&self, key: &[u8], _: &[u8], _: &[u8]) -> Result<InstitutionId, VerifyError> {
        if key == [1] {
            Err(VerifyError::Revoked)
        } else {
            Err(VerifyError::UntrustedKey)
        }
    }
}

#[test]
fn verifiers_of_other_kinds_can_be_written() {
    assert!(matches!(Revoking.verify(&[1], b"", b""), Err(VerifyError::Revoked)));
}
