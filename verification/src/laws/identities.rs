//! What is read off the bytes of an ssh-agent, and only that.

use crate::bytes;
use crate::error::{Error, ErrorView};
use crate::laws::agent;
use crate::ssh_agent;
use crate::ssh_agent::{Reader, SshAgentSigner};
use std::path::PathBuf;
use vstd::prelude::*;

verus! {

/// The number that the four bytes from `at` on hold, most significant first.
pub open spec fn four_bytes(b: Seq<u8>, at: int) -> int {
    b[at] * 0x100_0000 + b[at + 1] * 0x1_0000 + b[at + 2] * 0x100 + b[at + 3]
}

/// An SSH string is its length in four bytes, most significant first, and then its bytes.
pub proof fn string_layout(s: Seq<u8>)
    requires
        s.len() <= u32::MAX,
    ensures
        ssh_agent::ssh_string(s).len() == 4 + s.len(),
        four_bytes(ssh_agent::ssh_string(s), 0) == s.len(),
        ssh_agent::ssh_string(s).skip(4) == s,
{
    assert(s.len() % 0x1_0000_0000 == s.len());
    bytes::be32_round_trip(s.len() as u32);
    assert(ssh_agent::ssh_string(s).skip(4) =~= s);
}

/// An SSH string is appended behind what is there.
pub proof fn strings_are_appended(buf: &mut Vec<u8>, s: &[u8])
    requires
        call_ensures(ssh_agent::put_string, (buf, s), ()),
        s@.len() <= u32::MAX,
    ensures
        final(buf)@.len() == old(buf)@.len() + 4 + s@.len(),
        final(buf)@.take(old(buf)@.len() as int) == old(buf)@,
        four_bytes(final(buf)@, old(buf)@.len() as int) == s@.len(),
        final(buf)@.skip(old(buf)@.len() as int + 4) == s@,
{
    string_layout(s@);
    let (before, after) = (old(buf)@, final(buf)@);
    let at: int = before.len() as int;
    let string = ssh_agent::ssh_string(s@);
    assert(after.take(at) =~= before);
    assert(after.skip(at + 4) =~= string.skip(4));
    assert(after[at] == string[0] && after[at + 1] == string[1]);
    assert(after[at + 2] == string[2] && after[at + 3] == string[3]);
}

/// Two byte strings of the same four bytes in front hold the same number there.
proof fn four_bytes_are_a_number(b: Seq<u8>)
    requires
        b.len() >= 4,
    ensures
        0 <= four_bytes(b, 0) <= u32::MAX,
        bytes::be32(four_bytes(b, 0) as u32) == b.take(4),
{
    let n = four_bytes(b, 0);
    let (b0, b1, b2, b3) = (b[0], b[1], b[2], b[3]);
    assert(n / 0x1_0000 == b0 * 0x100 + b1);
    assert(n / 0x100 == (b0 * 0x100 + b1) * 0x100 + b2);
    assert(bytes::be32(n as u32) =~= b.take(4));
}

/// What is read as a string stands there as one, in front of what is left; there is none to be
/// read exactly if the bytes end before the length, or before what it announces.
pub proof fn strings_are_read_exactly(rest: Seq<u8>)
    ensures
        match ssh_agent::read_string(rest) {
            Some((s, after)) => s.len() <= u32::MAX && rest == ssh_agent::ssh_string(s) + after,
            None => rest.len() < 4 || rest.len() < 4 + four_bytes(rest, 0),
        },
{
    if rest.len() >= 4 {
        four_bytes_are_a_number(rest);
        assert(rest.take(4)[0] == rest[0] && rest.take(4)[1] == rest[1]);
        assert(rest.take(4)[2] == rest[2] && rest.take(4)[3] == rest[3]);
        if let Some((s, after)) = ssh_agent::read_string(rest) {
            assert(s.len() == four_bytes(rest, 0));
            assert(s.len() % 0x1_0000_0000 == s.len());
            assert(rest =~= ssh_agent::ssh_string(s) + after);
        }
    }
}

/// A reader hands out the string in front and goes on behind it; it fails exactly if there is
/// none.
pub proof fn readers_read_strings<'a>(reader: &mut Reader<'a>, read: Result<&'a [u8], Error>)
    requires
        call_ensures(Reader::<'a>::string, (reader,), read),
    ensures
        match read {
            Ok(s) => s@.len() <= u32::MAX && old(reader).rest() == ssh_agent::ssh_string(s@)
                + final(reader).rest(),
            Err(error) => {
                &&& error@ == ErrorView::Signer("ssh-agent: truncated message"@)
                &&& old(reader).rest().len() < 4 || old(reader).rest().len() < 4 + four_bytes(
                    old(reader).rest(),
                    0,
                )
            },
        },
{
    strings_are_read_exactly(old(reader).rest());
}

/// The first 19 bytes of every ed25519 key blob: the string "ssh-ed25519", and the length 32.
pub open spec fn ed25519_head() -> Seq<u8> {
    seq![
        0u8, 0u8, 0u8, 11u8, 0x73u8, 0x73u8, 0x68u8, 0x2du8, 0x65u8, 0x64u8, 0x32u8, 0x35u8,
        0x35u8, 0x31u8, 0x39u8, 0u8, 0u8, 0u8, 32u8,
    ]
}

/// Whether a blob is an ed25519 key blob with this raw public key, whatever follows.
pub open spec fn holds_key(blob: Seq<u8>, key: Seq<u8>) -> bool {
    blob.len() >= 51 && blob.subrange(0, 19) == ed25519_head() && key == blob.subrange(19, 51)
}

/// A blob is an ed25519 key blob exactly if it is the string "ssh-ed25519", the string of a raw
/// key of 32 bytes, and then anything.
pub proof fn key_blobs_are_two_strings(blob: Seq<u8>, key: Seq<u8>)
    ensures
        holds_key(blob, key) <==> key.len() == 32 && (ssh_agent::ssh_string(
            bytes::ascii("ssh-ed25519"@),
        ) + ssh_agent::ssh_string(key)).is_prefix_of(blob),
{
    crate::laws::messages::names_are_ascii_texts();
    let front = ssh_agent::ssh_string(bytes::ascii("ssh-ed25519"@)) + ssh_agent::ssh_string(key);
    if key.len() == 32 {
        assert(front =~= ed25519_head() + key);
        if front.is_prefix_of(blob) {
            assert(blob.subrange(0, 19) =~= front.subrange(0, 19));
            assert(front.subrange(0, 19) =~= ed25519_head());
            assert(blob.subrange(19, 51) =~= front.subrange(19, 51));
            assert(front.subrange(19, 51) =~= key);
        }
        if holds_key(blob, key) {
            assert(blob.subrange(0, 51) =~= blob.subrange(0, 19) + blob.subrange(19, 51));
        }
    }
}

/// The key of a blob is the one that it holds, and there is none if it holds none.
proof fn key_of_is_the_key_held(blob: Seq<u8>)
    ensures
        ssh_agent::key_of(blob) matches Some(key) ==> holds_key(blob, key),
        blob.len() >= 51 && blob.subrange(0, 19) == ed25519_head() ==> ssh_agent::key_of(blob)
            == Some(blob.subrange(19, 51)),
{
    crate::laws::messages::names_are_ascii_texts();
    let name = ssh_agent::ED25519_KEY_TYPE@;
    strings_are_read_exactly(blob);
    if let Some((kind, rest)) = ssh_agent::read_string(blob) {
        strings_are_read_exactly(rest);
        if let Some((key, after)) = ssh_agent::read_string(rest) {
            if kind == name && key.len() == 32 {
                let front = ssh_agent::ssh_string(name) + ssh_agent::ssh_string(key);
                assert(blob =~= front + after);
                assert(front =~= blob.subrange(0, front.len() as int));
                key_blobs_are_two_strings(blob, key);
            }
        }
    }
    if blob.len() >= 51 && blob.subrange(0, 19) == ed25519_head() {
        let key = blob.subrange(19, 51);
        key_blobs_are_two_strings(blob, key);
        let after = blob.skip(51);
        let back = ssh_agent::ssh_string(key) + after;
        assert(blob =~= blob.subrange(0, 51) + after);
        assert(blob =~= ssh_agent::ssh_string(name) + back);
        agent::ssh_string_round_trip(name, back);
        agent::ssh_string_round_trip(key, after);
    }
}

/// A raw key is read off a blob exactly if the blob is the string "ssh-ed25519", the string of
/// that key of 32 bytes, and then anything.
pub proof fn keys_are_read_off_ed25519_blobs_only(blob: &[u8], key: Option<[u8; 32]>)
    requires
        call_ensures(ssh_agent::parse_ed25519_public_key, (blob,), key),
    ensures
        match key {
            Some(k) => holds_key(blob@, k@) && (ssh_agent::ssh_string(
                bytes::ascii("ssh-ed25519"@),
            ) + ssh_agent::ssh_string(k@)).is_prefix_of(blob@),
            None => forall|k: Seq<u8>|
                k.len() == 32 ==> !(ssh_agent::ssh_string(bytes::ascii("ssh-ed25519"@))
                    + #[trigger] ssh_agent::ssh_string(k)).is_prefix_of(blob@),
        },
        key is None <==> blob@.len() < 51 || blob@.subrange(0, 19) != ed25519_head(),
{
    key_of_is_the_key_held(blob@);
    match key {
        Some(k) => key_blobs_are_two_strings(blob@, k@),
        None => assert forall|k: Seq<u8>| k.len() == 32 implies !(ssh_agent::ssh_string(
            bytes::ascii("ssh-ed25519"@),
        ) + #[trigger] ssh_agent::ssh_string(k)).is_prefix_of(blob@) by {
            key_blobs_are_two_strings(blob@, k);
        },
    }
}

/// A key blob of any other type gives no key, whatever its name and whatever follows it, so that
/// such an identity never suits.
pub proof fn other_key_types_give_no_key(
    blob: &[u8],
    name: Seq<u8>,
    rest: Seq<u8>,
    comment: Seq<u8>,
    want: Option<Seq<u8>>,
    key: Option<[u8; 32]>,
)
    requires
        name.len() <= u32::MAX,
        name != bytes::ascii("ssh-ed25519"@),
        blob@ == ssh_agent::ssh_string(name) + rest,
        call_ensures(ssh_agent::parse_ed25519_public_key, (blob,), key),
    ensures
        key is None,
        !agent::suits((blob@, comment), want),
{
    crate::laws::messages::names_are_ascii_texts();
    let right = ssh_agent::ED25519_KEY_TYPE@;
    key_of_is_the_key_held(blob@);
    if let Some(k) = ssh_agent::key_of(blob@) {
        key_blobs_are_two_strings(blob@, k);
        let front = ssh_agent::ssh_string(right) + ssh_agent::ssh_string(k);
        let after = blob@.skip(front.len() as int);
        assert(blob@ =~= ssh_agent::ssh_string(right) + (ssh_agent::ssh_string(k) + after));
        agent::ssh_string_round_trip(right, ssh_agent::ssh_string(k) + after);
        agent::ssh_string_round_trip(name, rest);
    }
}

/// An identity suits exactly if its blob is an ed25519 key blob, of the wanted key if one is
/// named.
pub proof fn suitable_identities(identity: (Seq<u8>, Seq<u8>), want: Option<Seq<u8>>)
    ensures
        agent::suits(identity, want) <==> {
            let blob = identity.0;
            &&& blob.len() >= 51
            &&& blob.subrange(0, 19) == ed25519_head()
            &&& want is None || want == Some(blob.subrange(19, 51))
        },
{
    key_of_is_the_key_held(identity.0);
}

/// Whether `rest` lists these identities, a key blob and a comment each, in front of `tail`, and
/// none of the first `passed` of them suits.
pub open spec fn lists(
    rest: Seq<u8>,
    identities: Seq<(Seq<u8>, Seq<u8>)>,
    tail: Seq<u8>,
    passed: int,
    want: Option<Seq<u8>>,
) -> bool {
    &&& rest == agent::identity_list(identities) + tail
    &&& forall|i: int|
        0 <= i < identities.len() ==> (#[trigger] identities[i]).0.len() <= u32::MAX
            && identities[i].1.len() <= u32::MAX
    &&& forall|i: int| 0 <= i < passed ==> !agent::suits(#[trigger] identities[i], want)
}

/// Whether there is no identity to be read: the blob or the comment is cut short.
pub open spec fn is_cut_short(tail: Seq<u8>) -> bool {
    match ssh_agent::read_string(tail) {
        None => true,
        Some((_, after_blob)) => ssh_agent::read_string(after_blob) is None,
    }
}

/// The outcome of a walk over `count` listed identities.
pub open spec fn walked(
    rest: Seq<u8>,
    count: nat,
    want: Option<Seq<u8>>,
    identities: Seq<(Seq<u8>, Seq<u8>)>,
    tail: Seq<u8>,
    found: Result<(Seq<u8>, Seq<u8>), ErrorView>,
) -> bool {
    match found {
        Ok((blob, key)) => {
            &&& 0 < identities.len() <= count
            &&& lists(rest, identities, tail, identities.len() - 1, want)
            &&& identities.last().0 == blob
            &&& holds_key(blob, key)
            &&& want is None || want == Some(key)
        },
        Err(error) => {
            &&& identities.len() <= count
            &&& lists(rest, identities, tail, identities.len() as int, want)
            &&& if identities.len() == count {
                error == ErrorView::Signer("ssh-agent: no matching ed25519 identity loaded"@)
            } else {
                is_cut_short(tail) && error == ErrorView::Signer("ssh-agent: truncated message"@)
            }
        },
    }
}

/// Every walk over listed identities comes out in one of these ways.
#[verifier::rlimit(60)]
#[verifier::spinoff_prover]
proof fn walk(rest: Seq<u8>, count: nat, want: Option<Seq<u8>>) -> (at: (
    Seq<(Seq<u8>, Seq<u8>)>,
    Seq<u8>,
))
    ensures
        walked(rest, count, want, at.0, at.1, ssh_agent::first_identity(rest, count, want)),
    decreases count,
{
    let none = Seq::<(Seq<u8>, Seq<u8>)>::empty();
    assert(rest =~= agent::identity_list(none) + rest);
    if count == 0 || is_cut_short(rest) {
        (none, rest)
    } else {
        strings_are_read_exactly(rest);
        let (blob, after_blob) = ssh_agent::read_string(rest)->Some_0;
        strings_are_read_exactly(after_blob);
        let (comment, next) = ssh_agent::read_string(after_blob)->Some_0;
        let first = (blob, comment);
        key_of_is_the_key_held(blob);
        if agent::suits(first, want) {
            let one = seq![first];
            assert(one.skip(1) =~= none);
            assert(rest =~= agent::identity_list(one) + next);
            (one, next)
        } else {
            let (others, tail) = walk(next, (count - 1) as nat, want);
            let all = seq![first] + others;
            assert(all.skip(1) =~= others);
            assert(rest =~= agent::identity_list(all) + tail);
            assert forall|i: int| 1 <= i < all.len() implies #[trigger] all[i] == others[i - 1] by {
            }
            if others.len() > 0 {
                assert(all.last() == others.last());
            }
            (all, tail)
        }
    }
}

/// What a signer is set up with, whatever an agent replies: the first listed identity that is an
/// ed25519 key, of the wanted key if one is named. A reply of another kind is unexpected; one that
/// ends before such an identity or the end of the list is cut short; and only a list that has been
/// read to its end without one holds none.
pub proof fn the_first_suitable_identity_is_taken(
    sock: PathBuf,
    reply: &[u8],
    want: Option<[u8; 32]>,
    signer: Result<SshAgentSigner, Error>,
)
    requires
        call_ensures(SshAgentSigner::connect, (sock, reply, want), signer),
    ensures
        signer matches Ok(s) ==> s.socket() == sock && holds_key(s@.0, s@.1)
            && crate::error::outcome(signer) == Ok::<_, ErrorView>(s@),
        signer matches Err(error) ==> crate::error::outcome(signer) == Err::<(Seq<u8>, Seq<u8>), _>(
            error@,
        ),
        want matches Some(key) ==> ssh_agent::want_view(want) == Some(key@),
        want is None ==> ssh_agent::want_view(want) is None,
        if reply@.len() >= 1 && reply@[0] != 12 {
            signer matches Err(error) && error@ == ErrorView::Signer(
                "ssh-agent: unexpected identities reply"@,
            )
        } else if reply@.len() < 5 {
            signer matches Err(error) && error@ == ErrorView::Signer(
                "ssh-agent: truncated message"@,
            )
        } else {
            exists|identities: Seq<(Seq<u8>, Seq<u8>)>, tail: Seq<u8>| #[trigger]
                walked(
                    reply@.skip(5),
                    four_bytes(reply@, 1) as nat,
                    ssh_agent::want_view(want),
                    identities,
                    tail,
                    crate::error::outcome(signer),
                )
        },
{
    if reply@.len() >= 5 && reply@[0] == 12 {
        let count = four_bytes(reply@, 1);
        assert(bytes::be32_value(reply@.subrange(1, 5)) == count);
        let (identities, tail) = walk(reply@.skip(5), count as nat, ssh_agent::want_view(want));
        let found = ssh_agent::first_identity(
            reply@.skip(5),
            count as nat,
            ssh_agent::want_view(want),
        );
        assert(walked(
            reply@.skip(5),
            count as nat,
            ssh_agent::want_view(want),
            identities,
            tail,
            found,
        ));
    }
}

/// What starts with these bytes is these bytes and the rest.
proof fn splits(front: Seq<u8>, all: Seq<u8>)
    requires
        front.is_prefix_of(all),
    ensures
        all == front + all.skip(front.len() as int),
{
    let rest = all.skip(front.len() as int);
    assert forall|i: int| 0 <= i < all.len() implies all[i] == (front + rest)[i] by {
        if i < front.len() {
            assert(front[i] == all.subrange(0, front.len() as int)[i]);
        }
    }
    assert(all =~= front + rest);
}

/// These bytes and a rest start with these bytes.
proof fn joins(front: Seq<u8>, rest: Seq<u8>)
    ensures
        front.is_prefix_of(front + rest),
{
    assert(front =~= (front + rest).subrange(0, front.len() as int));
}

/// The blob of a signature is read off a reply that starts with it.
proof fn reply_blob(reply: Seq<u8>, blob: Seq<u8>)
    requires
        blob.len() <= u32::MAX,
        (seq![14u8] + ssh_agent::ssh_string(blob)).is_prefix_of(reply),
    ensures
        reply[0] == 14,
        ssh_agent::read_string(reply.skip(1)) matches Some((b, _)) && b == blob,
{
    let front = seq![14u8] + ssh_agent::ssh_string(blob);
    splits(front, reply);
    let after = reply.skip(front.len() as int);
    assert(reply[0] == front[0]);
    assert((front + after).skip(1) =~= ssh_agent::ssh_string(blob) + after);
    agent::ssh_string_round_trip(blob, after);
}

/// A reply starts with the blob that is read off it.
proof fn blob_in_reply(reply: Seq<u8>)
    requires
        reply.len() >= 1,
        reply[0] == 14,
        ssh_agent::read_string(reply.skip(1)) is Some,
    ensures
        ssh_agent::read_string(reply.skip(1)) matches Some((blob, _)) && blob.len() <= u32::MAX && (
        seq![14u8] + ssh_agent::ssh_string(blob)).is_prefix_of(reply),
{
    strings_are_read_exactly(reply.skip(1));
    let (blob, after) = ssh_agent::read_string(reply.skip(1))->Some_0;
    assert(reply =~= seq![14u8] + reply.skip(1));
    assert(reply =~= (seq![14u8] + ssh_agent::ssh_string(blob)) + after);
    joins(seq![14u8] + ssh_agent::ssh_string(blob), after);
}

/// A signer publishes the raw key of its blob, and asks its agent at its socket.
pub proof fn agent_signers_are_read(signer: SshAgentSigner, key: Vec<u8>, sock: &PathBuf)
    requires
        call_ensures(SshAgentSigner::verifying_key, (&signer,), key),
        call_ensures(SshAgentSigner::sock, (&signer,), sock),
    ensures
        key@ == signer@.1,
        *sock == signer.socket(),
{
}

/// The requests to an agent: for its identities, the one byte 11; and to sign, the byte 13, the
/// signer's key blob and the message as strings, and four bytes of flags, all zero.
pub proof fn request_layouts(
    signer: SshAgentSigner,
    message: &[u8],
    listing: Vec<u8>,
    signing: Vec<u8>,
)
    requires
        call_ensures(ssh_agent::identities_request, (), listing),
        call_ensures(SshAgentSigner::sign_request, (&signer, message), signing),
    ensures
        listing@ == seq![11u8],
        signing@ == seq![13u8] + ssh_agent::ssh_string(signer@.0) + ssh_agent::ssh_string(message@)
            + seq![0u8, 0u8, 0u8, 0u8],
{
    assert(bytes::be32(0) =~= seq![0u8, 0u8, 0u8, 0u8]);
}

/// Whether a reply is a signature of this type with these bytes: the byte 14 and a string which is
/// made of the two strings; more may follow, in the string and behind it.
pub open spec fn replies_with(
    reply: Seq<u8>,
    blob: Seq<u8>,
    kind: Seq<u8>,
    signature: Seq<u8>,
) -> bool {
    &&& blob.len() <= u32::MAX
    &&& (seq![14u8] + ssh_agent::ssh_string(blob)).is_prefix_of(reply)
    &&& (ssh_agent::ssh_string(kind) + ssh_agent::ssh_string(signature)).is_prefix_of(blob)
}

/// What is read as a signature stands in the reply as one of type "ssh-ed25519", and every such
/// reply gives its signature.
#[verifier::rlimit(60)]
#[verifier::spinoff_prover]
pub proof fn signatures_are_read_off_ed25519_replies_only(
    signer: SshAgentSigner,
    reply: &[u8],
    read: Result<Vec<u8>, Error>,
    blob: Seq<u8>,
    signature: Seq<u8>,
)
    requires
        call_ensures(SshAgentSigner::read_signature, (&signer, reply), read),
    ensures
        read matches Ok(s) ==> exists|b: Seq<u8>| #[trigger]
            replies_with(reply@, b, bytes::ascii("ssh-ed25519"@), s@),
        replies_with(reply@, blob, bytes::ascii("ssh-ed25519"@), signature) ==> (read matches Ok(s)
            && s@ == signature),
{
    crate::laws::messages::names_are_ascii_texts();
    let name = ssh_agent::ED25519_KEY_TYPE@;
    if let Ok(s) = read {
        blob_in_reply(reply@);
        let (b, _) = ssh_agent::read_string(reply@.skip(1))->Some_0;
        strings_are_read_exactly(b);
        let (kind, rest) = ssh_agent::read_string(b)->Some_0;
        strings_are_read_exactly(rest);
        let (_, more) = ssh_agent::read_string(rest)->Some_0;
        let inner = ssh_agent::ssh_string(kind) + ssh_agent::ssh_string(s@);
        assert(b =~= inner + more);
        joins(inner, more);
        assert(replies_with(reply@, b, name, s@));
    }
    if replies_with(reply@, blob, name, signature) {
        reply_blob(reply@, blob);
        let inner = ssh_agent::ssh_string(name) + ssh_agent::ssh_string(signature);
        splits(inner, blob);
        let more = blob.skip(inner.len() as int);
        let rest = ssh_agent::ssh_string(signature) + more;
        assert(inner + more =~= ssh_agent::ssh_string(name) + rest);
        agent::ssh_string_round_trip(name, rest);
        agent::ssh_string_round_trip(signature, more);
    }
}

/// Why no signature is read: a reply of another kind is a refusal; a signature of another type is
/// not an ed25519 one; and otherwise the reply, the signature's blob or what follows its type is
/// cut short.
#[verifier::rlimit(60)]
#[verifier::spinoff_prover]
pub proof fn replies_without_a_signature(
    signer: SshAgentSigner,
    reply: &[u8],
    read: Result<Vec<u8>, Error>,
    blob: Seq<u8>,
    kind: Seq<u8>,
)
    requires
        call_ensures(SshAgentSigner::read_signature, (&signer, reply), read),
    ensures
        read matches Err(error) ==> error is Signer,
        (read matches Err(Error::Signer(text)) && text@ == "ssh-agent: signing was refused"@) <==> (
        reply@.len() >= 1 && reply@[0] != 14),
        blob.len() <= u32::MAX && kind.len() <= u32::MAX && kind != bytes::ascii("ssh-ed25519"@)
            && (seq![14u8] + ssh_agent::ssh_string(blob)).is_prefix_of(reply@)
            && ssh_agent::ssh_string(kind).is_prefix_of(blob) ==> (read matches Err(
            Error::Signer(text),
        ) && text@ == "ssh-agent: non-ed25519 signature"@),
        (read matches Err(Error::Signer(text)) && text@ == "ssh-agent: truncated message"@) <==> (
        reply@.len() < 1 || (reply@[0] == 14 && match ssh_agent::read_string(reply@.skip(1)) {
            None => true,
            Some((b, _)) => match ssh_agent::read_string(b) {
                None => true,
                Some((k, rest)) => k == bytes::ascii("ssh-ed25519"@) && ssh_agent::read_string(
                    rest,
                ) is None,
            },
        })),
        (read matches Err(Error::Signer(text)) && text@ == "ssh-agent: non-ed25519 signature"@)
            ==> exists|b: Seq<u8>, k: Seq<u8>|
            k != bytes::ascii("ssh-ed25519"@) && (seq![14u8] + #[trigger] ssh_agent::ssh_string(
                b,
            )).is_prefix_of(reply@) && (#[trigger] ssh_agent::ssh_string(k)).is_prefix_of(b),
{
    crate::laws::messages::names_are_ascii_texts();
    reveal_strlit("ssh-agent: signing was refused");
    reveal_strlit("ssh-agent: non-ed25519 signature");
    reveal_strlit("ssh-agent: truncated message");
    assert("ssh-agent: signing was refused"@.len() != "ssh-agent: truncated message"@.len());
    assert("ssh-agent: signing was refused"@.len() != "ssh-agent: non-ed25519 signature"@.len());
    assert("ssh-agent: truncated message"@.len() != "ssh-agent: non-ed25519 signature"@.len());
    if reply@.len() >= 1 && reply@[0] == 14 && ssh_agent::read_string(reply@.skip(1)) is Some {
        blob_in_reply(reply@);
        let (b, _) = ssh_agent::read_string(reply@.skip(1))->Some_0;
        strings_are_read_exactly(b);
        if let Some((k, rest)) = ssh_agent::read_string(b) {
            joins(ssh_agent::ssh_string(k), rest);
        }
    }
    if blob.len() <= u32::MAX && kind.len() <= u32::MAX && (seq![14u8] + ssh_agent::ssh_string(
        blob,
    )).is_prefix_of(reply@) && ssh_agent::ssh_string(kind).is_prefix_of(blob) {
        reply_blob(reply@, blob);
        splits(ssh_agent::ssh_string(kind), blob);
        agent::ssh_string_round_trip(kind, blob.skip(ssh_agent::ssh_string(kind).len() as int));
    }
}

/// A message to the agent is the payload behind its length in four bytes; a prefix from the agent
/// announces the number in its four bytes, which is from 1 to 2^20, or it is refused.
pub proof fn agent_frame_layout(
    payload: &[u8],
    framed: Result<Vec<u8>, Error>,
    prefix: [u8; 4],
    announced: Result<usize, Error>,
)
    requires
        call_ensures(ssh_agent::agent_frame, (payload,), framed),
        call_ensures(ssh_agent::agent_frame_len, (&prefix,), announced),
    ensures
        match framed {
            Ok(b) => b@.len() == 4 + payload@.len() && four_bytes(b@, 0) == payload@.len()
                && b@.skip(4) == payload@,
            Err(error) => payload@.len() >= 0x1_0000_0000 && error@ == ErrorView::Signer(
                "agent msg too large"@,
            ),
        },
        match announced {
            Ok(len) => len == four_bytes(prefix@, 0) && 1 <= len <= 0x10_0000,
            Err(error) => !(1 <= four_bytes(prefix@, 0) <= 0x10_0000) && error@
                == ErrorView::Signer("ssh-agent: bad message length"@),
        },
{
    if payload@.len() <= u32::MAX {
        string_layout(payload@);
    }
}

} // verus!
