//! The messages of an ssh-agent.

use crate::bytes;
use crate::error::ErrorView;
use crate::ssh_agent;
use vstd::prelude::*;

verus! {

/// A string is read off behind a prefix of four bytes that hold its length.
proof fn string_after_prefix(prefix: Seq<u8>, s: Seq<u8>, rest: Seq<u8>)
    requires
        prefix.len() == 4,
        bytes::be32_value(prefix) == s.len(),
    ensures
        ssh_agent::read_string(prefix + s + rest) == Some((s, rest)),
{
    let all = prefix + s + rest;
    let end: int = 4 + s.len() as int;
    assert(all.take(4) =~= prefix);
    assert(all.subrange(4, end) =~= s);
    assert(all.skip(end) =~= rest);
}

/// An SSH string reads back as it was written, whatever follows it.
pub proof fn ssh_string_round_trip(s: Seq<u8>, rest: Seq<u8>)
    requires
        s.len() <= u32::MAX,
    ensures
        ssh_agent::read_string(ssh_agent::ssh_string(s) + rest) == Some((s, rest)),
{
    let len = s.len() as u32;
    let prefix = bytes::be32(len);
    let all = ssh_agent::ssh_string(s) + rest;
    assert(s.len() % 0x1_0000_0000 == s.len());
    assert(all == prefix + s + rest);
    assert(prefix.len() == 4 && bytes::be32_value(prefix) == len) by {
        bytes::be32_round_trip(len);
    }
    string_after_prefix(prefix, s, rest);
}

/// A message to an agent can be taken apart again: its first four bytes announce the length of
/// the rest, and the rest is the message.
pub proof fn agent_frame_round_trip(payload: Seq<u8>)
    requires
        payload.len() <= u32::MAX,
    ensures
        bytes::be32_value(ssh_agent::ssh_string(payload).take(4)) == payload.len(),
        ssh_agent::ssh_string(payload).skip(4) == payload,
{
    assert(payload.len() % 0x1_0000_0000 == payload.len());
    crate::laws::messages::frame_round_trip(payload);
}

/// The key blob of an ed25519 public key.
pub open spec fn key_blob(key: Seq<u8>) -> Seq<u8> {
    ssh_agent::ssh_string(ssh_agent::ED25519_KEY_TYPE@) + ssh_agent::ssh_string(key)
}

/// The raw public key can be read off its key blob.
pub proof fn key_blob_round_trip(key: Seq<u8>)
    requires
        key.len() == 32,
    ensures
        ssh_agent::key_of(key_blob(key)) == Some(key),
{
    let end = Seq::<u8>::empty();
    assert(ssh_agent::ssh_string(key) + end =~= ssh_agent::ssh_string(key));
    ssh_string_round_trip(ssh_agent::ED25519_KEY_TYPE@, ssh_agent::ssh_string(key));
    ssh_string_round_trip(key, end);
}

/// An agent reads off a request to sign which key is meant and which message.
pub proof fn sign_request_round_trip(blob: Seq<u8>, message: Seq<u8>)
    requires
        blob.len() <= u32::MAX,
        message.len() <= u32::MAX,
    ensures
        ssh_agent::sign_request_bytes(blob, message)[0] == ssh_agent::SIGN_REQUEST,
        ssh_agent::read_string(ssh_agent::sign_request_bytes(blob, message).skip(1)) == Some(
            (blob, ssh_agent::ssh_string(message) + bytes::be32(0)),
        ),
        ssh_agent::read_string(ssh_agent::ssh_string(message) + bytes::be32(0)) == Some(
            (message, bytes::be32(0)),
        ),
{
    let rest = ssh_agent::ssh_string(message) + bytes::be32(0);
    assert(ssh_agent::sign_request_bytes(blob, message).skip(1) =~= ssh_agent::ssh_string(blob)
        + rest);
    ssh_string_round_trip(blob, rest);
    ssh_string_round_trip(message, bytes::be32(0));
}

/// The reply of an agent that has signed.
pub open spec fn signed_reply(signature: Seq<u8>) -> Seq<u8> {
    seq![ssh_agent::SIGN_RESPONSE] + ssh_agent::ssh_string(
        ssh_agent::ssh_string(ssh_agent::ED25519_KEY_TYPE@) + ssh_agent::ssh_string(signature),
    )
}

/// The raw signature can be read off an agent's reply.
pub proof fn signed_reply_round_trip(signature: Seq<u8>)
    requires
        signature.len() <= ssh_agent::MAX_AGENT_MSG,
    ensures
        ssh_agent::signature_in(signed_reply(signature)) == Ok::<_, ErrorView>(signature),
{
    let end = Seq::<u8>::empty();
    let blob = ssh_agent::ssh_string(ssh_agent::ED25519_KEY_TYPE@) + ssh_agent::ssh_string(
        signature,
    );
    assert(signed_reply(signature).skip(1) =~= ssh_agent::ssh_string(blob) + end);
    assert(ssh_agent::ssh_string(signature) + end =~= ssh_agent::ssh_string(signature));
    ssh_string_round_trip(blob, end);
    ssh_string_round_trip(ssh_agent::ED25519_KEY_TYPE@, ssh_agent::ssh_string(signature));
    ssh_string_round_trip(signature, end);
}

/// The list of identities in an agent's reply: a key blob and a comment each.
pub open spec fn identity_list(identities: Seq<(Seq<u8>, Seq<u8>)>) -> Seq<u8>
    decreases identities.len(),
{
    if identities.len() == 0 {
        Seq::empty()
    } else {
        ssh_agent::ssh_string(identities[0].0) + ssh_agent::ssh_string(identities[0].1)
            + identity_list(identities.skip(1))
    }
}

/// An agent's reply that lists these identities.
pub open spec fn identities_reply(identities: Seq<(Seq<u8>, Seq<u8>)>) -> Seq<u8> {
    seq![ssh_agent::IDENTITIES_ANSWER] + bytes::be32(identities.len() as u32) + identity_list(
        identities,
    )
}

/// Whether an identity is an ed25519 key that will do.
pub open spec fn suits(identity: (Seq<u8>, Seq<u8>), want: Option<Seq<u8>>) -> bool {
    ssh_agent::key_of(identity.0) matches Some(key) && ssh_agent::wanted(want, key)
}

/// Of the identities in a list, the first one that suits is selected.
proof fn first_suitable_in_list(
    identities: Seq<(Seq<u8>, Seq<u8>)>,
    want: Option<Seq<u8>>,
    chosen: int,
)
    requires
        forall|i: int|
            0 <= i < identities.len() ==> (#[trigger] identities[i]).0.len() <= u32::MAX
                && identities[i].1.len() <= u32::MAX,
        0 <= chosen <= identities.len(),
        forall|i: int| 0 <= i < chosen ==> !suits(#[trigger] identities[i], want),
        chosen < identities.len() ==> suits(identities[chosen], want),
    ensures
        ssh_agent::first_identity(identity_list(identities), identities.len(), want) == (if chosen
            < identities.len() {
            Ok((identities[chosen].0, ssh_agent::key_of(identities[chosen].0)->Some_0))
        } else {
            Err(ErrorView::Signer("ssh-agent: no matching ed25519 identity loaded"@))
        }),
    decreases identities.len(),
{
    if identities.len() > 0 {
        let (blob, comment) = identities[0];
        let rest = identities.skip(1);
        let after_blob = ssh_agent::ssh_string(comment) + identity_list(rest);
        assert(identity_list(identities) =~= ssh_agent::ssh_string(blob) + after_blob);
        ssh_string_round_trip(blob, after_blob);
        ssh_string_round_trip(comment, identity_list(rest));
        if chosen > 0 {
            assert(!suits(identities[0], want));
            assert forall|i: int| 0 <= i < rest.len() implies (#[trigger] rest[i]).0.len()
                <= u32::MAX && rest[i].1.len() <= u32::MAX by {
                assert(rest[i] == identities[i + 1]);
            }
            assert forall|i: int| 0 <= i < chosen - 1 implies !suits(#[trigger] rest[i], want) by {
                assert(rest[i] == identities[i + 1]);
            }
            first_suitable_in_list(rest, want, chosen - 1);
        }
    }
}

/// Of the identities that an agent lists, the first ed25519 key is selected, or the first that is
/// the wanted one; without such a key the agent is of no use.
pub proof fn first_suitable_identity_is_selected(
    identities: Seq<(Seq<u8>, Seq<u8>)>,
    want: Option<Seq<u8>>,
    chosen: int,
)
    requires
        identities.len() <= u32::MAX,
        forall|i: int|
            0 <= i < identities.len() ==> (#[trigger] identities[i]).0.len() <= u32::MAX
                && identities[i].1.len() <= u32::MAX,
        0 <= chosen <= identities.len(),
        forall|i: int| 0 <= i < chosen ==> !suits(#[trigger] identities[i], want),
        chosen < identities.len() ==> suits(identities[chosen], want),
    ensures
        ssh_agent::selected_identity(identities_reply(identities), want) == (if chosen
            < identities.len() {
            Ok((identities[chosen].0, ssh_agent::key_of(identities[chosen].0)->Some_0))
        } else {
            Err(ErrorView::Signer("ssh-agent: no matching ed25519 identity loaded"@))
        }),
{
    let reply = identities_reply(identities);
    let count = identities.len() as u32;
    bytes::be32_round_trip(count);
    assert(reply.subrange(1, 5) =~= bytes::be32(count));
    assert(reply.skip(5) =~= identity_list(identities));
    first_suitable_in_list(identities, want, chosen);
}

/// The key of a selected identity is the one in its blob, and the wanted one.
proof fn first_identity_is_coherent(rest: Seq<u8>, count: nat, want: Option<Seq<u8>>)
    ensures
        ssh_agent::first_identity(rest, count, want) matches Ok((blob, key)) ==> ssh_agent::key_of(
            blob,
        ) == Some(key) && ssh_agent::wanted(want, key),
    decreases count,
{
    if count > 0 {
        if let Some((_, after_blob)) = ssh_agent::read_string(rest) {
            if let Some((_, next)) = ssh_agent::read_string(after_blob) {
                first_identity_is_coherent(next, (count - 1) as nat, want);
            }
        }
    }
}

/// Whatever an agent replies, a selected identity is an ed25519 key: its raw public key is the
/// one in its blob, has 32 bytes, and is the wanted one where one was named.
pub proof fn selected_identity_is_an_ed25519_key(reply: Seq<u8>, want: Option<Seq<u8>>)
    ensures
        ssh_agent::selected_identity(reply, want) matches Ok((blob, key)) ==> {
            &&& ssh_agent::key_of(blob) == Some(key)
            &&& key.len() == 32
            &&& want matches Some(wanted) ==> wanted == key
        },
{
    if reply.len() >= 5 {
        first_identity_is_coherent(
            reply.skip(5),
            bytes::be32_value(reply.subrange(1, 5)) as nat,
            want,
        );
    }
}

} // verus!
