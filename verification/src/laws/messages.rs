//! What goes over the wire: names, transcripts, frames and encodings.

use crate::bytes;
use crate::codec;
use crate::hyde;
use crate::ssh_agent;
use crate::wire;
use crate::wire::{
    Message, ALPN, DOMAIN, DOMAIN_MUTUAL, MAX_MSG, MUTUAL_ALPN, ROLE_ACCEPTOR, ROLE_INITIATOR,
};
use vstd::prelude::*;

verus! {

/// The names that peers agree on: the two ALPNs, which differ, so that a one-directional
/// initiator and a mutual acceptor never mis-parse each other; the tags of the two transcripts;
/// and the name of ed25519 keys.
pub proof fn names_are_ascii_texts()
    ensures
        ALPN@ == bytes::ascii("iroh-hyde-auth/0"@),
        MUTUAL_ALPN@ == bytes::ascii("iroh-hyde-auth/mutual/0"@),
        ALPN@ != MUTUAL_ALPN@,
        DOMAIN@ == bytes::ascii("iroh-hyde-auth/v0/institutional-challenge"@),
        DOMAIN_MUTUAL@ == bytes::ascii("iroh-hyde-auth/v0/mutual-challenge"@),
        ssh_agent::ED25519_KEY_TYPE@ == bytes::ascii("ssh-ed25519"@),
{
    reveal_strlit("iroh-hyde-auth/0");
    reveal_strlit("iroh-hyde-auth/mutual/0");
    reveal_strlit("iroh-hyde-auth/v0/institutional-challenge");
    reveal_strlit("iroh-hyde-auth/v0/mutual-challenge");
    reveal_strlit("ssh-ed25519");
    assert(ALPN@ =~= bytes::ascii("iroh-hyde-auth/0"@));
    assert(MUTUAL_ALPN@ =~= bytes::ascii("iroh-hyde-auth/mutual/0"@));
    assert(ALPN@.len() != MUTUAL_ALPN@.len());
    assert(DOMAIN@ =~= bytes::ascii("iroh-hyde-auth/v0/institutional-challenge"@));
    assert(DOMAIN_MUTUAL@ =~= bytes::ascii("iroh-hyde-auth/v0/mutual-challenge"@));
    assert(ssh_agent::ED25519_KEY_TYPE@ =~= bytes::ascii("ssh-ed25519"@));
}

/// A transcript binds everything that goes into it: two transcripts are the same bytes only if
/// they are of the same nonce, the same endpoint id and the same timestamp. So an assertion that
/// is signed for one challenge and one session is about no other.
pub proof fn transcript_binds(
    nonce1: Seq<u8>,
    id1: Seq<u8>,
    secs1: u64,
    nonce2: Seq<u8>,
    id2: Seq<u8>,
    secs2: u64,
)
    requires
        nonce1.len() == nonce2.len(),
        id1.len() == id2.len(),
        wire::transcript_bytes(nonce1, id1, secs1) == wire::transcript_bytes(nonce2, id2, secs2),
    ensures
        nonce1 == nonce2,
        id1 == id2,
        secs1 == secs2,
{
    let t1 = wire::transcript_bytes(nonce1, id1, secs1);
    let t2 = wire::transcript_bytes(nonce2, id2, secs2);
    let n: int = DOMAIN@.len() + 1int;
    let i: int = n + nonce1.len();
    let s: int = i + id1.len();
    assert(nonce1 =~= t1.subrange(n, i));
    assert(nonce2 =~= t2.subrange(n, i));
    assert(id1 =~= t1.subrange(i, s));
    assert(id2 =~= t2.subrange(i, s));
    assert(bytes::be64(secs1) =~= t1.subrange(s, s + 8));
    assert(bytes::be64(secs2) =~= t2.subrange(s, s + 8));
    bytes::be64_injective(secs1, secs2);
}

/// A mutual transcript binds everything that goes into it, the signer's role among them.
pub proof fn mutual_transcript_binds(
    role1: u8,
    nonce1: Seq<u8>,
    id1: Seq<u8>,
    time1: u64,
    role2: u8,
    nonce2: Seq<u8>,
    id2: Seq<u8>,
    time2: u64,
)
    requires
        nonce1.len() == nonce2.len(),
        id1.len() == id2.len(),
        wire::mutual_transcript_bytes(role1, nonce1, id1, time1) == wire::mutual_transcript_bytes(
            role2,
            nonce2,
            id2,
            time2,
        ),
    ensures
        role1 == role2,
        nonce1 == nonce2,
        id1 == id2,
        time1 == time2,
{
    let t1 = wire::mutual_transcript_bytes(role1, nonce1, id1, time1);
    let t2 = wire::mutual_transcript_bytes(role2, nonce2, id2, time2);
    let n: int = DOMAIN_MUTUAL@.len() + 2int;
    let i: int = n + nonce1.len();
    let s: int = i + id1.len();
    assert(role1 == t1[n - 1]);
    assert(role2 == t2[n - 1]);
    assert(nonce1 =~= t1.subrange(n, i));
    assert(nonce2 =~= t2.subrange(n, i));
    assert(id1 =~= t1.subrange(i, s));
    assert(id2 =~= t2.subrange(i, s));
    assert(bytes::be64(time1) =~= t1.subrange(s, s + 8));
    assert(bytes::be64(time2) =~= t2.subrange(s, s + 8));
    bytes::be64_injective(time1, time2);
}

/// What one side of a mutual handshake signs is never what the other side has to sign, whatever
/// the nonces, ids and times: a signature cannot be reflected as the peer's own.
pub proof fn roles_do_not_mix(
    nonce1: Seq<u8>,
    id1: Seq<u8>,
    time1: u64,
    nonce2: Seq<u8>,
    id2: Seq<u8>,
    time2: u64,
)
    ensures
        wire::mutual_transcript_bytes(ROLE_INITIATOR, nonce1, id1, time1)
            != wire::mutual_transcript_bytes(ROLE_ACCEPTOR, nonce2, id2, time2),
{
    let t1 = wire::mutual_transcript_bytes(ROLE_INITIATOR, nonce1, id1, time1);
    let t2 = wire::mutual_transcript_bytes(ROLE_ACCEPTOR, nonce2, id2, time2);
    let r: int = DOMAIN_MUTUAL@.len() + 1int;
    assert(t1[r] == ROLE_INITIATOR);
    assert(t2[r] == ROLE_ACCEPTOR);
}

/// What is signed in a one-directional handshake is never what is signed in a mutual one.
pub proof fn transcripts_are_separate(
    nonce1: Seq<u8>,
    id1: Seq<u8>,
    time1: u64,
    role2: u8,
    nonce2: Seq<u8>,
    id2: Seq<u8>,
    time2: u64,
)
    ensures
        wire::transcript_bytes(nonce1, id1, time1) != wire::mutual_transcript_bytes(
            role2,
            nonce2,
            id2,
            time2,
        ),
{
    let t1 = wire::transcript_bytes(nonce1, id1, time1);
    let t2 = wire::mutual_transcript_bytes(role2, nonce2, id2, time2);
    assert(t1[18] == DOMAIN@[18]);
    assert(t2[18] == DOMAIN_MUTUAL@[18]);
}

/// A frame can be taken apart again: its first four bytes announce the length of the rest, and
/// the rest is what was framed.
pub proof fn frame_round_trip(payload: Seq<u8>)
    requires
        payload.len() <= u32::MAX,
    ensures
        wire::framed(payload).len() == 4 + payload.len(),
        bytes::be32_value(wire::framed(payload).take(4)) == payload.len(),
        wire::framed(payload).skip(4) == payload,
{
    let len = payload.len() as u32;
    bytes::be32_round_trip(len);
    assert(wire::framed(payload).take(4) =~= bytes::be32(len));
    assert(wire::framed(payload).skip(4) =~= payload);
}

/// The lengths of varints.
proof fn varint_len(x: u64)
    ensures
        codec::varint(x as nat).len() <= 10,
        x <= MAX_MSG ==> codec::varint(x as nat).len() <= 3,
{
    reveal_with_fuel(codec::varint, 10);
}

/// Assertions of every ML-DSA parameter set fit in a message: with the signature at its longest
/// (4627 bytes, for ML-DSA-87), neither the initiator's nor the acceptor's assertion exceeds
/// [`MAX_MSG`].
pub proof fn assertions_fit_in_a_message(
    algorithm: hyde_tee::SigningAlgorithm,
    version: u8,
    nonce: wire::Nonce,
    key: Seq<u8>,
    signature: Seq<u8>,
    secs: u64,
)
    requires
        key.len() == hyde::verifying_key_len(algorithm),
        signature.len() <= 4627,
    ensures
        wire::ClientAuth::encoding((key, signature, secs)).len() <= MAX_MSG,
        wire::MutualResponse::encoding((key, signature, secs)).len() <= MAX_MSG,
        wire::MutualChallenge::encoding((version, nonce@, key, signature, secs)).len() <= MAX_MSG,
{
    varint_len(key.len() as u64);
    varint_len(signature.len() as u64);
    varint_len(secs);
}

/// A number can be told from what follows it.
proof fn varint_is_prefix_free(x: nat, y: nat, a: Seq<u8>, b: Seq<u8>)
    requires
        codec::varint(x) + a == codec::varint(y) + b,
    ensures
        x == y,
        a == b,
    decreases x,
{
    let xs = codec::varint(x) + a;
    let ys = codec::varint(y) + b;
    assert(xs[0] == codec::varint(x)[0]);
    assert(ys[0] == codec::varint(y)[0]);
    if x < 0x80 {
        assert(xs.skip(1) =~= a);
        assert(ys.skip(1) =~= b);
    } else {
        assert(xs.skip(1) =~= codec::varint(x / 0x80) + a);
        assert(ys.skip(1) =~= codec::varint(y / 0x80) + b);
        varint_is_prefix_free(x / 0x80, y / 0x80, a, b);
    }
}

/// A byte string can be told from what follows it.
proof fn byte_string_is_prefix_free(s: Seq<u8>, t: Seq<u8>, a: Seq<u8>, b: Seq<u8>)
    requires
        codec::byte_string(s) + a == codec::byte_string(t) + b,
    ensures
        s == t,
        a == b,
{
    assert(codec::byte_string(s) + a =~= codec::varint(s.len()) + (s + a));
    assert(codec::byte_string(t) + b =~= codec::varint(t.len()) + (t + b));
    varint_is_prefix_free(s.len(), t.len(), s + a, t + b);
    assert(s =~= (s + a).take(s.len() as int));
    assert(t =~= (t + b).take(t.len() as int));
    assert(a =~= (s + a).skip(s.len() as int));
    assert(b =~= (t + b).skip(t.len() as int));
}

/// Two assertions with the same bytes are the same assertion.
proof fn assertion_bytes_are_unambiguous(
    first: (Seq<u8>, Seq<u8>, u64),
    second: (Seq<u8>, Seq<u8>, u64),
)
    requires
        wire::ClientAuth::encoding(first) == wire::ClientAuth::encoding(second),
    ensures
        first == second,
{
    let end = Seq::<u8>::empty();
    let rest1 = codec::byte_string(first.1) + codec::varint(first.2 as nat);
    let rest2 = codec::byte_string(second.1) + codec::varint(second.2 as nat);
    assert(wire::ClientAuth::encoding(first) =~= codec::byte_string(first.0) + rest1);
    assert(wire::ClientAuth::encoding(second) =~= codec::byte_string(second.0) + rest2);
    byte_string_is_prefix_free(first.0, second.0, rest1, rest2);
    byte_string_is_prefix_free(
        first.1,
        second.1,
        codec::varint(first.2 as nat),
        codec::varint(second.2 as nat),
    );
    assert(codec::varint(first.2 as nat) + end =~= codec::varint(first.2 as nat));
    assert(codec::varint(second.2 as nat) + end =~= codec::varint(second.2 as nat));
    varint_is_prefix_free(first.2 as nat, second.2 as nat, end, end);
}

/// Two messages of the one-directional handshake with the same bytes are the same message.
pub proof fn messages_are_unambiguous(
    hello1: u8,
    hello2: u8,
    challenge1: wire::ServerChallenge,
    challenge2: wire::ServerChallenge,
    auth1: (Seq<u8>, Seq<u8>, u64),
    auth2: (Seq<u8>, Seq<u8>, u64),
)
    ensures
        wire::ClientHello::encoding(hello1) == wire::ClientHello::encoding(hello2) ==> hello1
            == hello2,
        wire::ServerChallenge::encoding(challenge1@) == wire::ServerChallenge::encoding(challenge2@)
            ==> challenge1@ == challenge2@,
        wire::ClientAuth::encoding(auth1) == wire::ClientAuth::encoding(auth2) ==> auth1 == auth2,
{
    assert(seq![hello1][0] == hello1 && seq![hello2][0] == hello2);
    let (b1, b2) = (
        wire::ServerChallenge::encoding(challenge1@),
        wire::ServerChallenge::encoding(challenge2@),
    );
    if b1 == b2 {
        let end = Seq::<u8>::empty();
        let (s1, s2) = (challenge1.server_unix_secs as nat, challenge2.server_unix_secs as nat);
        assert(b1[0] == challenge1.version && b2[0] == challenge2.version);
        assert(b1.subrange(1, 33) =~= challenge1.nonce@);
        assert(b2.subrange(1, 33) =~= challenge2.nonce@);
        assert(b1.skip(33) =~= codec::varint(s1) + end);
        assert(b2.skip(33) =~= codec::varint(s2) + end);
        varint_is_prefix_free(s1, s2, end, end);
    }
    if wire::ClientAuth::encoding(auth1) == wire::ClientAuth::encoding(auth2) {
        assertion_bytes_are_unambiguous(auth1, auth2);
    }
}

/// Two messages of the mutual handshake with the same bytes are the same message.
pub proof fn mutual_messages_are_unambiguous(
    hello1: wire::MutualHello,
    hello2: wire::MutualHello,
    challenge1: wire::MutualChallenge,
    challenge2: wire::MutualChallenge,
    response1: (Seq<u8>, Seq<u8>, u64),
    response2: (Seq<u8>, Seq<u8>, u64),
)
    ensures
        wire::MutualHello::encoding(hello1@) == wire::MutualHello::encoding(hello2@) ==> hello1@
            == hello2@,
        wire::MutualChallenge::encoding(challenge1@) == wire::MutualChallenge::encoding(challenge2@)
            ==> challenge1@ == challenge2@,
        wire::MutualResponse::encoding(response1) == wire::MutualResponse::encoding(response2)
            ==> response1 == response2,
{
    let (h1, h2) = (wire::MutualHello::encoding(hello1@), wire::MutualHello::encoding(hello2@));
    if h1 == h2 {
        assert(h1[0] == hello1.version && h2[0] == hello2.version);
        assert(h1.subrange(1, 33) =~= hello1.nonce@);
        assert(h2.subrange(1, 33) =~= hello2.nonce@);
    }
    let (b1, b2) = (
        wire::MutualChallenge::encoding(challenge1@),
        wire::MutualChallenge::encoding(challenge2@),
    );
    if b1 == b2 {
        let (c1, c2) = (challenge1@, challenge2@);
        assert(b1[0] == c1.0 && b2[0] == c2.0);
        assert(b1.subrange(1, 33) =~= c1.1);
        assert(b2.subrange(1, 33) =~= c2.1);
        assert(b1.skip(33) =~= wire::ClientAuth::encoding((c1.2, c1.3, c1.4)));
        assert(b2.skip(33) =~= wire::ClientAuth::encoding((c2.2, c2.3, c2.4)));
        assertion_bytes_are_unambiguous((c1.2, c1.3, c1.4), (c2.2, c2.3, c2.4));
    }
    if wire::MutualResponse::encoding(response1) == wire::MutualResponse::encoding(response2) {
        assertion_bytes_are_unambiguous(response1, response2);
    }
}

} // verus!
