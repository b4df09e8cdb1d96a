//! Tests of the wire protocol: names, transcripts, frames and encodings.

use iroh_hyde_auth::wire::{
    frame, frame_len, mutual_transcript, read_msg, transcript, write_msg, ClientAuth, ClientHello,
    MutualChallenge, MutualHello, MutualResponse, ServerChallenge, CLOSE_ACCEPTED, CLOSE_DENIED,
    DOMAIN, DOMAIN_MUTUAL, ENDPOINT_ID_LEN, MAX_MSG, NONCE_LEN, PROTOCOL_VERSION, ROLE_ACCEPTOR,
    ROLE_INITIATOR,
};
use iroh_hyde_auth::{Error, ALPN, MUTUAL_ALPN};

#[test]
fn names_and_numbers() {
    assert_eq!(&ALPN, b"iroh-hyde-auth/0");
    assert_eq!(&MUTUAL_ALPN, b"iroh-hyde-auth/mutual/0");
    assert_eq!(&DOMAIN, b"iroh-hyde-auth/v0/institutional-challenge");
    assert_eq!(&DOMAIN_MUTUAL, b"iroh-hyde-auth/v0/mutual-challenge");
    assert_eq!((PROTOCOL_VERSION, NONCE_LEN, ENDPOINT_ID_LEN), (0, 32, 32));
    assert_eq!((CLOSE_ACCEPTED, CLOSE_DENIED, MAX_MSG), (1, 403, 16384));
    assert_eq!((ROLE_INITIATOR, ROLE_ACCEPTOR), (1, 2));
}

#[test]
fn transcript_layout() {
    let mut expected = b"iroh-hyde-auth/v0/institutional-challenge".to_vec();
    expected.push(0);
    expected.extend_from_slice(&[0x11; 32]);
    expected.extend_from_slice(&[0x22; 32]);
    expected.extend_from_slice(&[1, 2, 3, 4, 5, 6, 7, 8]);
    assert_eq!(transcript(&[0x11; 32], &[0x22; 32], 0x0102_0304_0506_0708), expected);
    assert_eq!(expected.len(), 114);
}

#[test]
fn mutual_transcript_layout() {
    let mut expected = b"iroh-hyde-auth/v0/mutual-challenge".to_vec();
    expected.extend_from_slice(&[0, 2]);
    expected.extend_from_slice(&[0x11; 32]);
    expected.extend_from_slice(&[0x22; 32]);
    expected.extend_from_slice(&[0, 0, 0, 0, 0x65, 0x53, 0xf1, 0]);
    assert_eq!(
        mutual_transcript(ROLE_ACCEPTOR, &[0x11; 32], &[0x22; 32], 1_700_000_000),
        expected
    );
    assert_eq!(expected.len(), 108);
}

#[test]
fn transcripts_bind_their_parts() {
    let base = transcript(&[1; 32], &[2; 32], 3);
    assert_ne!(base, transcript(&[9; 32], &[2; 32], 3));
    assert_ne!(base, transcript(&[1; 32], &[9; 32], 3));
    assert_ne!(base, transcript(&[1; 32], &[2; 32], 9));
    let mutual = mutual_transcript(ROLE_INITIATOR, &[1; 32], &[2; 32], 3);
    assert_ne!(base, mutual);
    assert_ne!(mutual, mutual_transcript(ROLE_ACCEPTOR, &[1; 32], &[2; 32], 3));
    assert_ne!(mutual, mutual_transcript(ROLE_INITIATOR, &[9; 32], &[2; 32], 3));
    assert_ne!(mutual, mutual_transcript(ROLE_INITIATOR, &[1; 32], &[9; 32], 3));
    assert_ne!(mutual, mutual_transcript(ROLE_INITIATOR, &[1; 32], &[2; 32], 9));
}

#[test]
fn frames_are_bounded_when_read() {
    assert_eq!(frame(&[7, 8, 9]).unwrap(), [0, 0, 0, 3, 7, 8, 9]);
    assert_eq!(frame_len(&[0, 0, 0, 3], MAX_MSG).unwrap(), 3);
    assert_eq!(frame_len(&[0, 0, 0x40, 0], MAX_MSG).unwrap(), MAX_MSG);
    assert_eq!(frame_len(&[0, 0, 0, 0], MAX_MSG).unwrap(), 0);
    assert!(matches!(frame_len(&[0, 0, 0x40, 1], MAX_MSG), Err(Error::MessageTooLarge(16385))));
    assert!(matches!(frame_len(&[1, 2, 3, 4], 0), Err(Error::MessageTooLarge(0x0102_0304))));
}

/// Takes a written message apart and checks what its prefix announces.
fn payload(written: Result<Vec<u8>, Error>) -> Vec<u8> {
    let bytes = written.unwrap();
    let prefix: [u8; 4] = bytes[..4].try_into().unwrap();
    assert_eq!(frame_len(&prefix, MAX_MSG).unwrap(), bytes.len() - 4);
    bytes[4..].to_vec()
}

#[test]
fn hello_encoding() {
    let bytes = payload(write_msg(&ClientHello { version: 200 }));
    assert_eq!(bytes, [200]);
    assert_eq!(read_msg::<ClientHello>(&bytes).unwrap().version, 200);
    assert_eq!(read_msg::<ClientHello>(&[1, 2, 3]).unwrap().version, 1);
    match read_msg::<ClientHello>(&[]) {
        Err(error) => assert_eq!(
            error.message(),
            "codec error: Hit the end of buffer, expected more data"
        ),
        other => panic!("{other:?}"),
    }
}

#[test]
fn challenge_encoding() {
    let msg = ServerChallenge { version: 0, nonce: [0xAB; 32], server_unix_secs: 300 };
    let bytes = payload(write_msg(&msg));
    let mut expected = vec![0];
    expected.extend_from_slice(&[0xAB; 32]);
    expected.extend_from_slice(&[0xAC, 0x02]);
    assert_eq!(bytes, expected);
    let back: ServerChallenge = read_msg(&bytes).unwrap();
    assert_eq!((back.version, back.nonce, back.server_unix_secs), (0, [0xAB; 32], 300));
    for len in [0, 32, 33, 34] {
        assert!(matches!(
            read_msg::<ServerChallenge>(&bytes[..len]),
            Err(Error::Codec(postcard::Error::DeserializeUnexpectedEnd))
        ));
    }
    // Numbers may be written longer than they need, up to ten bytes, and be followed by anything.
    let with_secs = |secs: &[u8]| {
        let mut bytes = vec![0; 33];
        bytes.extend_from_slice(secs);
        read_msg::<ServerChallenge>(&bytes).map(|m| m.server_unix_secs)
    };
    assert_eq!(with_secs(&[0x85, 0x00, 9]).unwrap(), 5);
    let mut longest = [0x80; 10];
    longest[9] = 1;
    assert_eq!(with_secs(&longest).unwrap(), 1 << 63);
    for last in [2, 0x80] {
        longest[9] = last;
        assert!(matches!(
            with_secs(&longest),
            Err(Error::Codec(postcard::Error::DeserializeBadVarint))
        ));
    }
}

#[test]
fn assertion_encoding() {
    let msg = ClientAuth {
        verifying_key: vec![5; 200],
        signature: vec![6, 7],
        client_unix_secs: u64::MAX,
    };
    let bytes = payload(write_msg(&msg));
    let mut expected = vec![0xC8, 0x01];
    expected.extend_from_slice(&[5; 200]);
    expected.extend_from_slice(&[2, 6, 7]);
    expected.extend_from_slice(&[0xFF, 0xFF, 0xFF, 0xFF, 0xFF, 0xFF, 0xFF, 0xFF, 0xFF, 0x01]);
    assert_eq!(bytes, expected);
    let back: ClientAuth = read_msg(&bytes).unwrap();
    assert_eq!(back.verifying_key, msg.verifying_key);
    assert_eq!(back.signature, msg.signature);
    assert_eq!(back.client_unix_secs, u64::MAX);
    // The same layout carries the assertion of a mutual handshake.
    let response: MutualResponse = read_msg(&bytes).unwrap();
    assert_eq!(payload(write_msg(&response)), bytes);
    assert_eq!(response.initiator_unix_secs, u64::MAX);
    for len in [0, 1, 20, 202, 204, 205, 210] {
        assert!(matches!(
            read_msg::<ClientAuth>(&bytes[..len]),
            Err(Error::Codec(postcard::Error::DeserializeUnexpectedEnd))
        ));
    }
    // A length that no number can hold.
    assert!(matches!(
        read_msg::<ClientAuth>(&[0xFF; 40]),
        Err(Error::Codec(postcard::Error::DeserializeBadVarint))
    ));
}

#[test]
fn mutual_encodings() {
    let hello = payload(write_msg(&MutualHello { version: 1, nonce: [4; 32] }));
    assert_eq!(hello.len(), 33);
    let back: MutualHello = read_msg(&hello).unwrap();
    assert_eq!((back.version, back.nonce), (1, [4; 32]));
    assert!(matches!(
        read_msg::<MutualHello>(&hello[..32]),
        Err(Error::Codec(postcard::Error::DeserializeUnexpectedEnd))
    ));

    let msg = MutualChallenge {
        version: 0,
        nonce: [3; 32],
        verifying_key: vec![1],
        signature: vec![],
        acceptor_unix_secs: 127,
    };
    let bytes = payload(write_msg(&msg));
    let mut expected = vec![0];
    expected.extend_from_slice(&[3; 32]);
    expected.extend_from_slice(&[1, 1, 0, 127]);
    assert_eq!(bytes, expected);
    let back: MutualChallenge = read_msg(&bytes).unwrap();
    assert_eq!((back.version, back.nonce, back.acceptor_unix_secs), (0, [3; 32], 127));
    assert_eq!((back.verifying_key, back.signature), (vec![1], vec![]));
    assert!(matches!(read_msg::<MutualChallenge>(&bytes[..36]), Err(Error::Codec(_))));
}

#[test]
fn largest_assertion_fits_in_a_message() {
    let msg = MutualChallenge {
        version: 0,
        nonce: [0; 32],
        verifying_key: vec![0; 2592],
        signature: vec![0; 4627],
        acceptor_unix_secs: u64::MAX,
    };
    assert!(payload(write_msg(&msg)).len() <= MAX_MSG);
}

#[test]
fn fields_keep_apart_in_the_encoding() {
    let bytes = |key: &[u8], sig: &[u8], secs: u64| {
        payload(write_msg(&ClientAuth {
            verifying_key: key.to_vec(),
            signature: sig.to_vec(),
            client_unix_secs: secs,
        }))
    };
    assert_eq!(bytes(&[1], &[2, 3], 4), [1, 1, 2, 2, 3, 4]);
    assert_ne!(bytes(&[1], &[2, 3], 4), bytes(&[1, 2], &[3], 4));
    assert_ne!(bytes(&[], &[1], 1), bytes(&[1], &[], 1));
}
