//! Bytes and texts, spelled out: numbers, transcripts, frames, messages and the words of errors.

use crate::bytes;
use crate::codec;
use crate::error::{Error, ErrorView};
use crate::text;
use crate::trust::VerifyError;
use crate::wire;
use crate::wire::{
    ClientAuth, ClientHello, EndpointId, Message, MutualChallenge, MutualHello, MutualResponse,
    Nonce, ServerChallenge,
};
use vstd::prelude::*;

verus! {

/// The number that eight bytes hold, most significant first.
pub open spec fn eight_bytes(b: Seq<u8>, at: int) -> int {
    b[at] * 0x100_0000_0000_0000 + b[at + 1] * 0x1_0000_0000_0000 + b[at + 2] * 0x100_0000_0000
        + b[at + 3] * 0x1_0000_0000 + b[at + 4] * 0x100_0000 + b[at + 5] * 0x1_0000 + b[at + 6]
        * 0x100 + b[at + 7]
}

/// Numbers of four and of eight bytes are written most significant byte first, and texts one byte
/// per character.
pub proof fn numbers_are_big_endian(x: u32, y: u64, b: Seq<u8>, t: Seq<char>)
    ensures
        bytes::be32(x).len() == 4,
        x == bytes::be32(x)[0] * 0x100_0000 + bytes::be32(x)[1] * 0x1_0000 + bytes::be32(x)[2]
            * 0x100 + bytes::be32(x)[3],
        bytes::be64(y).len() == 8,
        y == eight_bytes(bytes::be64(y), 0),
        bytes::be32_value(b) == b[0] * 0x100_0000 + b[1] * 0x1_0000 + b[2] * 0x100 + b[3],
        bytes::ascii(t).len() == t.len(),
        forall|i: int| 0 <= i < t.len() ==> #[trigger] bytes::ascii(t)[i] == t[i] as u8,
{
    bytes::be32_round_trip(x);
    let (high, low) = ((y / 0x1_0000_0000) as u32, (y % 0x1_0000_0000) as u32);
    bytes::be32_round_trip(high);
    bytes::be32_round_trip(low);
    let (h, l) = (bytes::be32(high), bytes::be32(low));
    let all = bytes::be64(y);
    assert(all[0] == h[0] && all[1] == h[1] && all[2] == h[2] && all[3] == h[3]);
    assert(all[4] == l[0] && all[5] == l[1] && all[6] == l[2] && all[7] == l[3]);
    assert(y == high * 0x1_0000_0000 + low);
}

/// What is signed in the one-directional handshake: 41 bytes of tag, the version, the 32 bytes of
/// the nonce, the 32 bytes of the endpoint id, and the time in eight bytes.
pub proof fn transcript_layout(nonce: Nonce, id: EndpointId, secs: u64, t: Vec<u8>)
    requires
        call_ensures(wire::transcript, (&nonce, &id, secs), t),
    ensures
        t@.len() == 114,
        t@.subrange(0, 41) == bytes::ascii("iroh-hyde-auth/v0/institutional-challenge"@),
        t@[41] == 0,
        t@.subrange(42, 74) == nonce@,
        t@.subrange(74, 106) == id@,
        eight_bytes(t@, 106) == secs,
        t@ == wire::transcript_bytes(nonce@, id@, secs),
{
    crate::laws::messages::names_are_ascii_texts();
    numbers_are_big_endian(0, secs, Seq::empty(), Seq::empty());
    let time = bytes::be64(secs);
    assert(t@.subrange(0, 41) =~= wire::DOMAIN@);
    assert(t@.subrange(42, 74) =~= nonce@);
    assert(t@.subrange(74, 106) =~= id@);
    assert(t@[106] == time[0] && t@[107] == time[1] && t@[108] == time[2] && t@[109] == time[3]);
    assert(t@[110] == time[4] && t@[111] == time[5] && t@[112] == time[6] && t@[113] == time[7]);
}

/// What is signed in a mutual handshake: 34 bytes of tag, the version, the role, the 32 bytes of
/// the peer's nonce, the 32 bytes of the signer's endpoint id, and the time in eight bytes.
pub proof fn mutual_transcript_layout(
    role: u8,
    nonce: Nonce,
    id: EndpointId,
    time: u64,
    t: Vec<u8>,
)
    requires
        call_ensures(wire::mutual_transcript, (role, &nonce, &id, time), t),
    ensures
        t@.len() == 108,
        t@.subrange(0, 34) == bytes::ascii("iroh-hyde-auth/v0/mutual-challenge"@),
        t@[34] == 0,
        t@[35] == role,
        t@.subrange(36, 68) == nonce@,
        t@.subrange(68, 100) == id@,
        eight_bytes(t@, 100) == time,
        t@ == wire::mutual_transcript_bytes(role, nonce@, id@, time),
{
    crate::laws::messages::names_are_ascii_texts();
    numbers_are_big_endian(0, time, Seq::empty(), Seq::empty());
    let secs = bytes::be64(time);
    assert(t@.subrange(0, 34) =~= wire::DOMAIN_MUTUAL@);
    assert(t@.subrange(36, 68) =~= nonce@);
    assert(t@.subrange(68, 100) =~= id@);
    assert(t@[100] == secs[0] && t@[101] == secs[1] && t@[102] == secs[2] && t@[103] == secs[3]);
    assert(t@[104] == secs[4] && t@[105] == secs[5] && t@[106] == secs[6] && t@[107] == secs[7]);
}

/// A frame is the payload behind its length in four bytes; only a payload whose length does not
/// fit there is refused, with that length.
pub proof fn frame_layout(payload: &[u8], framed: Result<Vec<u8>, Error>)
    requires
        call_ensures(wire::frame, (payload,), framed),
    ensures
        match framed {
            Ok(b) => {
                &&& b@.len() == 4 + payload@.len()
                &&& payload@.len() == b@[0] * 0x100_0000 + b@[1] * 0x1_0000 + b@[2] * 0x100 + b@[3]
                &&& b@.skip(4) == payload@
            },
            Err(error) => payload@.len() >= 0x1_0000_0000 && error@ == ErrorView::MessageTooLarge(
                payload@.len(),
            ),
        },
{
    if framed is Ok {
        let len = payload@.len() as u32;
        numbers_are_big_endian(len, 0, Seq::empty(), Seq::empty());
        let b = framed->Ok_0@;
        assert(b.skip(4) =~= payload@);
        assert(b[0] == bytes::be32(len)[0] && b[1] == bytes::be32(len)[1]);
        assert(b[2] == bytes::be32(len)[2] && b[3] == bytes::be32(len)[3]);
    }
}

/// A prefix announces the number in its four bytes, and is refused exactly if that is more than is
/// allowed.
pub proof fn frame_len_layout(prefix: [u8; 4], max: usize, announced: Result<usize, Error>)
    requires
        call_ensures(wire::frame_len, (&prefix, max), announced),
    ensures
        ({
            let n = prefix@[0] * 0x100_0000 + prefix@[1] * 0x1_0000 + prefix@[2] * 0x100
                + prefix@[3];
            match announced {
                Ok(len) => len == n && n <= max,
                Err(error) => n > max && error@ == ErrorView::MessageTooLarge(n as nat),
            }
        }),
{
}

/// What is written reads back: the bytes behind the prefix of a written message are read as that
/// message and no other.
pub proof fn written_messages_read_back<M: Message>(
    message: M,
    written: Result<Vec<u8>, Error>,
    payload: &[u8],
    read: Result<M, Error>,
)
    requires
        call_ensures(wire::write_msg::<M>, (&message,), written),
        written is Ok,
        payload@ == written->Ok_0@.skip(4),
        call_ensures(wire::read_msg::<M>, (payload,), read),
    ensures
        read matches Ok(same) && same@ == message@,
{
    let encoded = M::encoding(message@);
    assert(wire::framed(encoded).skip(4) =~= encoded);
}

/// The fields of a message stand in its bytes in their order: a byte and a nonce as they are, a
/// byte string behind its length, a time as a number.
pub proof fn message_layouts(
    hello: ClientHello,
    challenge: ServerChallenge,
    auth: ClientAuth,
    mutual_hello: MutualHello,
    mutual_challenge: MutualChallenge,
    response: MutualResponse,
)
    ensures
        ClientHello::encoding(hello@) == seq![hello.version],
        ServerChallenge::encoding(challenge@) == seq![challenge.version] + challenge.nonce@
            + codec::varint(challenge.server_unix_secs as nat),
        ClientAuth::encoding(auth@) == codec::byte_string(auth.verifying_key@) + codec::byte_string(
            auth.signature@,
        ) + codec::varint(auth.client_unix_secs as nat),
        MutualHello::encoding(mutual_hello@) == seq![mutual_hello.version] + mutual_hello.nonce@,
        MutualChallenge::encoding(mutual_challenge@) == seq![mutual_challenge.version]
            + mutual_challenge.nonce@ + codec::byte_string(mutual_challenge.verifying_key@)
            + codec::byte_string(mutual_challenge.signature@) + codec::varint(
            mutual_challenge.acceptor_unix_secs as nat,
        ),
        MutualResponse::encoding(response@) == codec::byte_string(response.verifying_key@)
            + codec::byte_string(response.signature@) + codec::varint(
            response.initiator_unix_secs as nat,
        ),
{
}

/// What bytes are read as, message by message: the fields that the codec finds, or a codec error.
pub proof fn messages_are_read_field_by_field(
    b: &[u8],
    hello: Result<ClientHello, Error>,
    challenge: Result<ServerChallenge, Error>,
    auth: Result<ClientAuth, Error>,
    mutual_hello: Result<MutualHello, Error>,
    mutual_challenge: Result<MutualChallenge, Error>,
    response: Result<MutualResponse, Error>,
)
    requires
        call_ensures(wire::read_msg::<ClientHello>, (b,), hello),
        call_ensures(wire::read_msg::<ServerChallenge>, (b,), challenge),
        call_ensures(wire::read_msg::<ClientAuth>, (b,), auth),
        call_ensures(wire::read_msg::<MutualHello>, (b,), mutual_hello),
        call_ensures(wire::read_msg::<MutualChallenge>, (b,), mutual_challenge),
        call_ensures(wire::read_msg::<MutualResponse>, (b,), response),
    ensures
        match hello {
            Ok(m) => b@.len() >= 1 && m.version == b@[0],
            Err(error) => b@.len() == 0 && error@ == ErrorView::Codec(
                postcard::Error::DeserializeUnexpectedEnd,
            ),
        },
        match (challenge, codec::decoded_challenge(b@)) {
            (Ok(m), Ok(fields)) => fields == (m.version, m.nonce@, m.server_unix_secs),
            (Err(error), Err(wrong)) => error@ == ErrorView::Codec(wrong),
            _ => false,
        },
        match (auth, codec::decoded_assertion(b@)) {
            (Ok(m), Ok(fields)) => fields == (
                m.verifying_key@,
                m.signature@,
                m.client_unix_secs,
            ),
            (Err(error), Err(wrong)) => error@ == ErrorView::Codec(wrong),
            _ => false,
        },
        match mutual_hello {
            Ok(m) => b@.len() >= 33 && m.version == b@[0] && m.nonce@ == b@.subrange(1, 33),
            Err(error) => b@.len() < 33 && error@ == ErrorView::Codec(
                postcard::Error::DeserializeUnexpectedEnd,
            ),
        },
        match (mutual_challenge, codec::decoded_proof(b@)) {
            (Ok(m), Ok(fields)) => fields == (
                m.version,
                m.nonce@,
                m.verifying_key@,
                m.signature@,
                m.acceptor_unix_secs,
            ),
            (Err(error), Err(wrong)) => error@ == ErrorView::Codec(wrong),
            _ => false,
        },
        match (response, codec::decoded_assertion(b@)) {
            (Ok(m), Ok(fields)) => fields == (
                m.verifying_key@,
                m.signature@,
                m.initiator_unix_secs,
            ),
            (Err(error), Err(wrong)) => error@ == ErrorView::Codec(wrong),
            _ => false,
        },
{
}

/// The number that decimal digits stand for.
pub open spec fn digits_value(digits: Seq<char>) -> nat
    decreases digits.len(),
{
    if digits.len() == 0 {
        0
    } else {
        (10 * digits_value(digits.drop_last()) + (digits.last() as int - '0' as int)) as nat
    }
}

/// A number in decimal is a string of digits that stands for the number, without leading zeros.
pub proof fn decimals_stand_for_their_number(n: nat)
    ensures
        digits_value(text::decimal(n)) == n,
        text::decimal(n).len() >= 1,
        forall|i: int|
            0 <= i < text::decimal(n).len() ==> '0' as int <= #[trigger] text::decimal(n)[i] as int
                <= '9' as int,
        text::decimal(n)[0] == '0' ==> n == 0,
    decreases n,
{
    let all = text::decimal(n);
    reveal_with_fuel(digits_value, 2);
    if n < 10 {
        assert(all.drop_last() =~= Seq::<char>::empty());
    } else {
        decimals_stand_for_their_number(n / 10);
        assert(all.drop_last() =~= text::decimal(n / 10));
    }
}

/// The words of every error.
pub proof fn errors_in_words(error: Error, text: String)
    requires
        call_ensures(Error::message, (&error,), text),
    ensures
        match error {
            Error::Transport(t) => text@ == "transport error: "@ + t@,
            Error::Codec(e) => text@ == "codec error: "@ + codec::error_words(e),
            Error::MessageTooLarge(len) => text@ == "message too large: "@ + text::decimal(
                len as nat,
            ) + " bytes"@,
            Error::Version(v) => text@ == "unsupported protocol version: "@ + text::decimal(
                v as nat,
            ),
            Error::ClockSkew => text@ == "clock skew outside allowed window"@,
            Error::Signer(t) => text@ == "institutional signer failed: "@ + t@,
            Error::Denied(t) => text@ == "authentication denied: "@ + t@,
            Error::AuthenticatorStopped => text@ == "authenticator task stopped"@,
        },
        text@ == error@.message(),
{
}

/// The words of every refusal of a verifier.
pub proof fn refusals_in_words(reason: VerifyError, text: String)
    requires
        call_ensures(VerifyError::message, (&reason,), text),
    ensures
        match reason {
            VerifyError::UntrustedKey => text@ == "verifying key is not a trusted institution"@,
            VerifyError::BadSignature => text@ == "signature verification failed"@,
            VerifyError::Revoked => text@ == "institution has been revoked"@,
            VerifyError::Crypto(t) => text@ == "crypto error: "@ + t@,
        },
        text@ == reason@.message(),
{
}

} // verus!
