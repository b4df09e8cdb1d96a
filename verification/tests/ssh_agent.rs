//! Tests for the `ssh-agent` backend against an agent in this process.

use std::path::PathBuf;

use ed25519_dalek::{Signer, SigningKey};
use iroh_hyde_auth::ssh_agent::{
    agent_frame, agent_frame_len, identities_request, parse_ed25519_public_key, put_string, Reader,
    ED25519_KEY_TYPE, IDENTITIES_ANSWER, MAX_AGENT_MSG, REQUEST_IDENTITIES, SIGN_REQUEST,
    SIGN_RESPONSE,
};
use iroh_hyde_auth::{
    Error, InstitutionVerifier, Roster, SshAgentSigner, SshVerifier, VerifyError,
};

/// A throwaway agent with some ed25519 keys loaded, after a key of another kind.
struct TestAgent {
    keys: Vec<SigningKey>,
}

fn blob_of(key: &SigningKey) -> Vec<u8> {
    let mut blob = Vec::new();
    put_string(&mut blob, b"ssh-ed25519");
    put_string(&mut blob, key.verifying_key().as_bytes());
    blob
}

impl TestAgent {
    fn start(seeds: &[u8]) -> Self {
        TestAgent {
            keys: seeds.iter().map(|s| SigningKey::from_bytes(&[*s; 32])).collect(),
        }
    }

    /// Answers a framed request with a framed reply.
    fn exchange(&self, request: &[u8]) -> Vec<u8> {
        let prefix: [u8; 4] = request[..4].try_into().unwrap();
        assert_eq!(agent_frame_len(&prefix).unwrap(), request.len() - 4);
        let mut r = Reader::new(&request[4..]);
        let mut reply = Vec::new();
        match r.u8().unwrap() {
            REQUEST_IDENTITIES => {
                reply.push(IDENTITIES_ANSWER);
                reply.extend_from_slice(&(self.keys.len() as u32 + 1).to_be_bytes());
                let mut rsa = Vec::new();
                put_string(&mut rsa, b"ssh-rsa");
                put_string(&mut rsa, &[1, 0, 1]);
                put_string(&mut reply, &rsa);
                put_string(&mut reply, b"old key");
                for key in &self.keys {
                    put_string(&mut reply, &blob_of(key));
                    put_string(&mut reply, b"");
                }
            }
            SIGN_REQUEST => {
                let blob = r.string().unwrap();
                let message = r.string().unwrap();
                assert_eq!(r.u32().unwrap(), 0);
                match self.keys.iter().find(|k| blob_of(k) == blob) {
                    Some(key) => {
                        reply.push(SIGN_RESPONSE);
                        let mut sig = Vec::new();
                        put_string(&mut sig, b"ssh-ed25519");
                        put_string(&mut sig, &key.sign(message).to_bytes());
                        put_string(&mut reply, &sig);
                    }
                    None => reply.push(5),
                }
            }
            _ => reply.push(5),
        }
        agent_frame(&reply).unwrap()
    }

    fn connect(&self, want: Option<[u8; 32]>) -> Result<SshAgentSigner, Error> {
        let reply = self.exchange(&agent_frame(&identities_request())?);
        SshAgentSigner::connect(PathBuf::from("/run/agent.sock"), &reply[4..], want)
    }

    fn sign(&self, signer: &SshAgentSigner, message: &[u8]) -> Result<Vec<u8>, Error> {
        let reply = self.exchange(&agent_frame(&signer.sign_request(message))?);
        signer.read_signature(&reply[4..])
    }
}

#[test]
fn ssh_backend_sign_and_verify() {
    let agent = TestAgent::start(&[7]);
    let signer = agent.connect(None).unwrap();
    let vk = signer.verifying_key();
    assert_eq!(vk.len(), 32, "ed25519 public key is 32 bytes");

    let mut roster = Roster::new();
    roster.insert(vk.clone(), "node-a");
    let verifier = SshVerifier::new(roster);

    let msg = b"institutional assertion transcript";
    let sig = agent.sign(&signer, msg).unwrap();
    assert_eq!(verifier.verify(&vk, msg, &sig).unwrap(), "node-a");

    // Tampered signature rejected.
    let mut bad = sig.clone();
    bad[0] ^= 0xff;
    assert!(verifier.verify(&vk, msg, &bad).is_err());

    // Key not in roster rejected.
    let empty = SshVerifier::new(Roster::new());
    assert!(empty.verify(&vk, msg, &sig).is_err());
}

fn signer_says(result: Result<SshAgentSigner, Error>, words: &str) {
    match result {
        Err(Error::Signer(text)) => assert_eq!(text, words),
        other => panic!("{other:?}"),
    }
}

#[test]
fn first_or_wanted_identity_is_selected() {
    let agent = TestAgent::start(&[1, 2, 3]);
    let second = agent.keys[1].verifying_key().to_bytes();
    assert_eq!(
        agent.connect(None).unwrap().verifying_key(),
        agent.keys[0].verifying_key().as_bytes()
    );
    let signer = agent.connect(Some(second)).unwrap();
    assert_eq!(signer.verifying_key(), second);
    assert_eq!(signer.sock(), &PathBuf::from("/run/agent.sock"));
    assert_eq!(signer.clone().verifying_key(), second);
    signer_says(
        agent.connect(Some([9; 32])),
        "ssh-agent: no matching ed25519 identity loaded",
    );
    signer_says(
        TestAgent::start(&[]).connect(None),
        "ssh-agent: no matching ed25519 identity loaded",
    );
}

#[test]
fn odd_identity_replies_are_refused() {
    let sock = PathBuf::from("s");
    signer_says(
        SshAgentSigner::connect(sock.clone(), &[], None),
        "ssh-agent: truncated message",
    );
    signer_says(
        SshAgentSigner::connect(sock.clone(), &[5], None),
        "ssh-agent: unexpected identities reply",
    );
    signer_says(
        SshAgentSigner::connect(sock.clone(), &[IDENTITIES_ANSWER, 0, 0, 0], None),
        "ssh-agent: truncated message",
    );
    signer_says(
        SshAgentSigner::connect(
            sock.clone(),
            &[IDENTITIES_ANSWER, 0, 0, 0, 1, 0, 0, 0, 9, 1],
            None,
        ),
        "ssh-agent: truncated message",
    );
    signer_says(
        SshAgentSigner::connect(sock, &[IDENTITIES_ANSWER, 0, 0, 0, 0], None),
        "ssh-agent: no matching ed25519 identity loaded",
    );
}

#[test]
fn odd_signature_replies_are_refused() {
    let agent = TestAgent::start(&[7]);
    let signer = agent.connect(None).unwrap();
    let says = |reply: &[u8], words: &str| match signer.read_signature(reply) {
        Err(Error::Signer(text)) => assert_eq!(text, words),
        other => panic!("{other:?}"),
    };
    says(&[], "ssh-agent: truncated message");
    says(&[5], "ssh-agent: signing was refused");
    says(&[SIGN_RESPONSE, 0, 0, 0, 8, 1], "ssh-agent: truncated message");
    let mut inner = Vec::new();
    put_string(&mut inner, b"ssh-rsa");
    put_string(&mut inner, b"sig");
    let mut reply = vec![SIGN_RESPONSE];
    put_string(&mut reply, &inner);
    says(&reply, "ssh-agent: non-ed25519 signature");
    // An agent that does not hold the key refuses to sign.
    assert!(TestAgent::start(&[8]).sign(&signer, b"m").is_err());
}

#[test]
fn sign_request_has_the_agent_layout() {
    let agent = TestAgent::start(&[7]);
    let signer = agent.connect(None).unwrap();
    let blob = blob_of(&agent.keys[0]);
    let mut expected = vec![13, 0, 0, 0, 51];
    expected.extend_from_slice(&blob);
    expected.extend_from_slice(&[0, 0, 0, 2, b'h', b'i', 0, 0, 0, 0]);
    assert_eq!(signer.sign_request(b"hi"), expected);
    assert_eq!(identities_request(), [11]);
    assert_eq!(&ED25519_KEY_TYPE, b"ssh-ed25519");
}

#[test]
fn key_blobs_are_parsed() {
    let key = SigningKey::from_bytes(&[7; 32]);
    let blob = blob_of(&key);
    assert_eq!(blob.len(), 51);
    assert_eq!(parse_ed25519_public_key(&blob), Some(key.verifying_key().to_bytes()));
    assert_eq!(parse_ed25519_public_key(&blob[..50]), None);
    let mut other = Vec::new();
    put_string(&mut other, b"ssh-ed25518");
    put_string(&mut other, &[0; 32]);
    assert_eq!(parse_ed25519_public_key(&other), None);
    let mut short = Vec::new();
    put_string(&mut short, b"ssh-ed25519");
    put_string(&mut short, &[0; 31]);
    assert_eq!(parse_ed25519_public_key(&short), None);
}

#[test]
fn agent_frames_announce_their_length() {
    assert_eq!(agent_frame(&[9, 8]).unwrap(), [0, 0, 0, 2, 9, 8]);
    assert_eq!(agent_frame_len(&[0, 0, 0, 2]).unwrap(), 2);
    assert_eq!(agent_frame_len(&[0, 0x10, 0, 0]).unwrap(), MAX_AGENT_MSG);
    for prefix in [[0, 0, 0, 0], [0, 0x10, 0, 1], [0xff; 4]] {
        match agent_frame_len(&prefix) {
            Err(Error::Signer(text)) => assert_eq!(text, "ssh-agent: bad message length"),
            other => panic!("{other:?}"),
        }
    }
}

#[test]
fn ssh_verifier_tells_the_refusals_apart() {
    let key = SigningKey::from_bytes(&[7; 32]);
    let vk = key.verifying_key().to_bytes();
    let sig = key.sign(b"m").to_bytes();
    // No point of the curve has this y coordinate.
    let off_curve = {
        let mut bytes = [0u8; 32];
        bytes[0] = 2;
        bytes
    };
    let mut roster = Roster::new();
    roster.insert(vk.to_vec(), "a").insert(vec![1; 31], "short").insert(off_curve.to_vec(), "off");
    let verifier = SshVerifier::new(roster).clone();
    assert_eq!(verifier.verify(&vk, b"m", &sig).unwrap(), "a");
    assert!(matches!(verifier.verify(&[0; 32], b"m", &sig), Err(VerifyError::UntrustedKey)));
    assert!(matches!(verifier.verify(&vk, b"other", &sig), Err(VerifyError::BadSignature)));
    assert!(matches!(verifier.verify(&vk, b"m", &sig[..63]), Err(VerifyError::BadSignature)));
    match verifier.verify(&[1; 31], b"m", &sig) {
        Err(VerifyError::Crypto(text)) => assert_eq!(text, "ed25519 key must be 32 bytes"),
        other => panic!("{other:?}"),
    }
    match verifier.verify(&off_curve, b"m", &sig) {
        Err(VerifyError::Crypto(text)) => assert_eq!(text, "signature error"),
        other => panic!("{other:?}"),
    }
}
