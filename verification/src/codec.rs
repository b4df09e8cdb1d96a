//! The parts of the `postcard` crate that this library builds on, with what is taken on trust of
//! each. A message is encoded as the tuple of its fields: a byte and an array of bytes stand as
//! they are, a number is a varint, and a byte string has its length, a varint, in front.

use crate::wire::Nonce;
use postcard::Error as CodecError;
use vstd::prelude::*;

verus! {

/// A number as postcard writes it: seven bits to a byte, least significant first, with the high
/// bit set on every byte but the last.
pub open spec fn varint(x: nat) -> Seq<u8>
    decreases x,
{
    if x < 0x80 {
        seq![x as u8]
    } else {
        seq![(x % 0x80 + 0x80) as u8] + varint(x / 0x80)
    }
}

/// A byte string as postcard writes it.
pub open spec fn byte_string(s: Seq<u8>) -> Seq<u8> {
    varint(s.len()) + s
}

/// `postcard::Error`: what was wrong with an encoding.
#[verifier::external_type_specification]
pub struct ExCodecError(CodecError);

/// What `postcard::Error` says of itself in words.
pub open spec fn error_words(error: CodecError) -> Seq<char> {
    match error {
        CodecError::WontImplement => "This is a feature that PostCard will never implement"@,
        CodecError::NotYetImplemented =>
            "This is a feature that Postcard intends to support, but does not yet"@,
        CodecError::SerializeBufferFull => "The serialize buffer is full"@,
        CodecError::SerializeSeqLengthUnknown => "The length of a sequence must be known"@,
        CodecError::DeserializeUnexpectedEnd => "Hit the end of buffer, expected more data"@,
        CodecError::DeserializeBadVarint =>
            "Found a varint that didn't terminate. Is the usize too big for this platform?"@,
        CodecError::DeserializeBadBool => "Found a bool that wasn't 0 or 1"@,
        CodecError::DeserializeBadChar => "Found an invalid unicode char"@,
        CodecError::DeserializeBadUtf8 => "Tried to parse invalid utf-8"@,
        CodecError::DeserializeBadOption => "Found an Option discriminant that wasn't 0 or 1"@,
        CodecError::DeserializeBadEnum =>
            "Found an enum discriminant that was > u32::max_value()"@,
        CodecError::DeserializeBadEncoding => "The original data was not well encoded"@,
        CodecError::DeserializeBadCrc => "Bad CRC while deserializing"@,
        CodecError::SerdeSerCustom => "Serde Serialization Error"@,
        CodecError::SerdeDeCustom => "Serde Deserialization Error"@,
        _ => "Error while processing `collect_str` during serialization"@,
    }
}

/// The `Display` of `postcard::Error`: one text for each error.
#[verifier::external_body]
pub(crate) fn words(error: &CodecError) -> (text: String)
    ensures
        text@ == error_words(*error),
{
    error.to_string()
}

/// The view of what `postcard::from_bytes` makes of a byte, an array of bytes and a number.
pub open spec fn challenge_read(read: Result<(u8, Nonce, u64), CodecError>) -> Result<
    (u8, Seq<u8>, u64),
    CodecError,
> {
    match read {
        Ok((version, nonce, secs)) => Ok((version, nonce@, secs)),
        Err(error) => Err(error),
    }
}

/// The view of what `postcard::from_bytes` makes of two byte strings and a number.
pub open spec fn assertion_read(read: Result<(Vec<u8>, Vec<u8>, u64), CodecError>) -> Result<
    (Seq<u8>, Seq<u8>, u64),
    CodecError,
> {
    match read {
        Ok((key, signature, secs)) => Ok((key@, signature@, secs)),
        Err(error) => Err(error),
    }
}

/// The view of what `postcard::from_bytes` makes of a byte, an array of bytes, two byte strings
/// and a number.
pub open spec fn proof_read(
    read: Result<(u8, Nonce, Vec<u8>, Vec<u8>, u64), CodecError>,
) -> Result<(u8, Seq<u8>, Seq<u8>, Seq<u8>, u64), CodecError> {
    match read {
        Ok((version, nonce, key, signature, secs)) => Ok(
            (version, nonce@, key@, signature@, secs),
        ),
        Err(error) => Err(error),
    }
}

/// Reads a number of at most `groups` bytes, the last of which is at most `last` where all of them
/// are needed, off the front of `rest`: the number and what follows it.
pub open spec fn read_varint(rest: Seq<u8>, groups: nat, last: nat) -> Result<
    (nat, Seq<u8>),
    CodecError,
>
    decreases groups,
{
    if groups == 0 {
        Err(CodecError::DeserializeBadVarint)
    } else if rest.len() == 0 {
        Err(CodecError::DeserializeUnexpectedEnd)
    } else if rest[0] < 0x80 {
        if groups == 1 && rest[0] > last {
            Err(CodecError::DeserializeBadVarint)
        } else {
            Ok((rest[0] as nat, rest.skip(1)))
        }
    } else {
        match read_varint(rest.skip(1), (groups - 1) as nat, last) {
            Ok((high, after)) => Ok(((rest[0] - 0x80 + 0x80 * high) as nat, after)),
            Err(error) => Err(error),
        }
    }
}

/// Reads a 64-bit number.
pub open spec fn read_u64(rest: Seq<u8>) -> Result<(nat, Seq<u8>), CodecError> {
    read_varint(rest, 10, 1)
}

/// Reads a length, as wide as a `usize`.
pub open spec fn read_usize(rest: Seq<u8>) -> Result<(nat, Seq<u8>), CodecError> {
    if usize::BITS == 64 {
        read_varint(rest, 10, 1)
    } else {
        read_varint(rest, 5, 15)
    }
}

/// Reads a byte string.
pub open spec fn read_byte_string(rest: Seq<u8>) -> Result<(Seq<u8>, Seq<u8>), CodecError> {
    match read_usize(rest) {
        Ok((len, after)) => if after.len() < len {
            Err(CodecError::DeserializeUnexpectedEnd)
        } else {
            Ok((after.take(len as int), after.skip(len as int)))
        },
        Err(error) => Err(error),
    }
}

/// What the bytes hold as a byte, an array of 32 bytes and a number; what follows does not matter.
pub open spec fn decoded_challenge(bytes: Seq<u8>) -> Result<(u8, Seq<u8>, u64), CodecError> {
    if bytes.len() < 33 {
        Err(CodecError::DeserializeUnexpectedEnd)
    } else {
        match read_u64(bytes.skip(33)) {
            Ok((secs, _)) => Ok((bytes[0], bytes.subrange(1, 33), secs as u64)),
            Err(error) => Err(error),
        }
    }
}

/// What the bytes hold as two byte strings and a number; what follows does not matter.
pub open spec fn decoded_assertion(bytes: Seq<u8>) -> Result<
    (Seq<u8>, Seq<u8>, u64),
    CodecError,
> {
    match read_byte_string(bytes) {
        Err(error) => Err(error),
        Ok((key, after_key)) => match read_byte_string(after_key) {
            Err(error) => Err(error),
            Ok((signature, after_signature)) => match read_u64(after_signature) {
                Err(error) => Err(error),
                Ok((secs, _)) => Ok((key, signature, secs as u64)),
            },
        },
    }
}

/// What the bytes hold as a byte, an array of 32 bytes, two byte strings and a number; what follows
/// does not matter.
pub open spec fn decoded_proof(bytes: Seq<u8>) -> Result<
    (u8, Seq<u8>, Seq<u8>, Seq<u8>, u64),
    CodecError,
> {
    if bytes.len() < 33 {
        Err(CodecError::DeserializeUnexpectedEnd)
    } else {
        match decoded_assertion(bytes.skip(33)) {
            Ok((key, signature, secs)) => Ok(
                (bytes[0], bytes.subrange(1, 33), key, signature, secs),
            ),
            Err(error) => Err(error),
        }
    }
}

/// Whether a number can be written in so many bytes.
spec fn fits(x: nat, groups: nat, last: nat) -> bool
    decreases groups,
{
    if groups == 0 {
        false
    } else if x < 0x80 {
        groups > 1 || x <= last
    } else {
        fits(x / 0x80, (groups - 1) as nat, last)
    }
}

/// A number reads back as it was written, whatever follows it.
proof fn varint_round_trip(x: nat, rest: Seq<u8>, groups: nat, last: nat)
    requires
        fits(x, groups, last),
    ensures
        read_varint(varint(x) + rest, groups, last) == Ok::<_, CodecError>((x, rest)),
    decreases groups,
{
    let all = varint(x) + rest;
    if x < 0x80 {
        assert(all.skip(1) =~= rest);
    } else {
        assert(all.skip(1) =~= varint(x / 0x80) + rest);
        varint_round_trip(x / 0x80, rest, (groups - 1) as nat, last);
    }
}

/// A 64-bit number reads back as it was written.
proof fn u64_round_trip(x: u64, rest: Seq<u8>)
    ensures
        read_u64(varint(x as nat) + rest) == Ok::<_, CodecError>((x as nat, rest)),
{
    assert(fits(x as nat, 10, 1)) by {
        reveal_with_fuel(fits, 10);
    }
    varint_round_trip(x as nat, rest, 10, 1);
}

/// A byte string reads back as it was written.
proof fn byte_string_round_trip(s: Seq<u8>, rest: Seq<u8>)
    requires
        s.len() <= usize::MAX,
    ensures
        read_byte_string(byte_string(s) + rest) == Ok::<_, CodecError>((s, rest)),
{
    let len = s.len();
    assert(byte_string(s) + rest =~= varint(len) + (s + rest));
    if usize::BITS == 64 {
        assert(len <= u64::MAX);
        u64_round_trip(len as u64, s + rest);
    } else {
        assert(len <= u32::MAX);
        assert(fits(len, 5, 15)) by {
            reveal_with_fuel(fits, 5);
        }
        varint_round_trip(len, s + rest, 5, 15);
    }
    assert((s + rest).take(len as int) =~= s);
    assert((s + rest).skip(len as int) =~= rest);
}

/// A challenge reads back as it was written.
pub proof fn challenge_round_trip(version: u8, nonce: Nonce, secs: u64)
    ensures
        decoded_challenge(seq![version] + nonce@ + varint(secs as nat)) == Ok::<_, CodecError>(
            (version, nonce@, secs),
        ),
{
    let all = seq![version] + nonce@ + varint(secs as nat);
    let end = Seq::<u8>::empty();
    assert(all.skip(33) =~= varint(secs as nat) + end);
    assert(all.subrange(1, 33) =~= nonce@);
    u64_round_trip(secs, end);
}

/// An assertion reads back as it was written.
pub proof fn assertion_round_trip(key: Seq<u8>, signature: Seq<u8>, secs: u64)
    requires
        key.len() <= usize::MAX,
        signature.len() <= usize::MAX,
    ensures
        decoded_assertion(byte_string(key) + byte_string(signature) + varint(secs as nat)) == Ok::<
            _,
            CodecError,
        >((key, signature, secs)),
{
    let end = Seq::<u8>::empty();
    let time = varint(secs as nat);
    let rest = byte_string(signature) + time;
    assert(byte_string(key) + byte_string(signature) + time =~= byte_string(key) + rest);
    assert(time + end =~= time);
    byte_string_round_trip(key, rest);
    byte_string_round_trip(signature, time);
    u64_round_trip(secs, end);
}

/// An assertion behind a nonce reads back as it was written.
pub proof fn proof_round_trip(
    version: u8,
    nonce: Nonce,
    key: Seq<u8>,
    signature: Seq<u8>,
    secs: u64,
)
    requires
        key.len() <= usize::MAX,
        signature.len() <= usize::MAX,
    ensures
        decoded_proof(
            seq![version] + nonce@ + byte_string(key) + byte_string(signature) + varint(
                secs as nat,
            ),
        ) == Ok::<_, CodecError>((version, nonce@, key, signature, secs)),
{
    let assertion = byte_string(key) + byte_string(signature) + varint(secs as nat);
    let all = seq![version] + nonce@ + byte_string(key) + byte_string(signature) + varint(
        secs as nat,
    );
    assert(all.skip(33) =~= assertion);
    assert(all.subrange(1, 33) =~= nonce@);
    assertion_round_trip(key, signature, secs);
}

/// `postcard::to_allocvec` of a byte: always that byte.
#[verifier::external_body]
pub(crate) fn encode_version(version: u8) -> (encoded: Result<Vec<u8>, CodecError>)
    ensures
        encoded is Ok,
        encoded matches Ok(bytes) ==> bytes@ == seq![version],
{
    postcard::to_allocvec(&version)
}

/// `postcard::from_bytes` for a byte: the first one, whatever follows it.
#[verifier::external_body]
pub(crate) fn decode_version(bytes: &[u8]) -> (decoded: Result<u8, CodecError>)
    ensures
        decoded is Ok <==> bytes@.len() >= 1,
        decoded matches Ok(version) ==> version == bytes@[0],
        decoded matches Err(error) ==> error is DeserializeUnexpectedEnd,
{
    postcard::from_bytes(bytes)
}

/// `postcard::to_allocvec` of a byte and an array of 32 bytes: always these bytes.
#[verifier::external_body]
pub(crate) fn encode_greeting(version: u8, nonce: &Nonce) -> (encoded: Result<Vec<u8>, CodecError>)
    ensures
        encoded is Ok,
        encoded matches Ok(bytes) ==> bytes@ == seq![version] + nonce@,
{
    postcard::to_allocvec(&(version, nonce))
}

/// `postcard::from_bytes` for a byte and an array of 32 bytes: the first 33, whatever follows
/// them.
#[verifier::external_body]
pub(crate) fn decode_greeting(bytes: &[u8]) -> (decoded: Result<(u8, Nonce), CodecError>)
    ensures
        decoded is Ok <==> bytes@.len() >= 33,
        decoded matches Ok((version, nonce)) ==> version == bytes@[0] && nonce@
            == bytes@.subrange(1, 33),
        decoded matches Err(error) ==> error is DeserializeUnexpectedEnd,
{
    postcard::from_bytes(bytes)
}

/// `postcard::to_allocvec` of a byte, an array of 32 bytes and a number. It always succeeds.
#[verifier::external_body]
pub(crate) fn encode_challenge(version: u8, nonce: &Nonce, secs: u64) -> (encoded: Result<
    Vec<u8>,
    CodecError,
>)
    ensures
        encoded is Ok,
        encoded matches Ok(bytes) ==> bytes@ == seq![version] + nonce@ + varint(secs as nat),
{
    postcard::to_allocvec(&(version, nonce, secs))
}

/// `postcard::from_bytes` for a byte, an array of 32 bytes and a number. It reads
/// them one after the other.
#[verifier::external_body]
pub(crate) fn decode_challenge(bytes: &[u8]) -> (decoded: Result<(u8, Nonce, u64), CodecError>)
    ensures
        challenge_read(decoded) == decoded_challenge(bytes@),
{
    postcard::from_bytes(bytes)
}

/// `postcard::to_allocvec` of two byte strings and a number. It always succeeds.
#[verifier::external_body]
pub(crate) fn encode_assertion(key: &[u8], signature: &[u8], secs: u64) -> (encoded: Result<
    Vec<u8>,
    CodecError,
>)
    ensures
        encoded is Ok,
        encoded matches Ok(bytes) ==> bytes@ == byte_string(key@) + byte_string(signature@)
            + varint(secs as nat),
{
    postcard::to_allocvec(&(key, signature, secs))
}

/// `postcard::from_bytes` for two byte strings and a number. It reads them one after
/// the other.
#[verifier::external_body]
pub(crate) fn decode_assertion(bytes: &[u8]) -> (decoded: Result<
    (Vec<u8>, Vec<u8>, u64),
    CodecError,
>)
    ensures
        assertion_read(decoded) == decoded_assertion(bytes@),
{
    postcard::from_bytes(bytes)
}

/// `postcard::to_allocvec` of a byte, an array of 32 bytes, two byte strings and a number. It
/// always succeeds.
#[verifier::external_body]
pub(crate) fn encode_proof(
    version: u8,
    nonce: &Nonce,
    key: &[u8],
    signature: &[u8],
    secs: u64,
) -> (encoded: Result<Vec<u8>, CodecError>)
    ensures
        encoded is Ok,
        encoded matches Ok(bytes) ==> bytes@ == seq![version] + nonce@ + byte_string(key@)
            + byte_string(signature@) + varint(secs as nat),
{
    postcard::to_allocvec(&(version, nonce, key, signature, secs))
}

/// `postcard::from_bytes` for a byte, an array of 32 bytes, two byte strings and a number. It
/// reads them one after the other.
#[verifier::external_body]
pub(crate) fn decode_proof(bytes: &[u8]) -> (decoded: Result<
    (u8, Nonce, Vec<u8>, Vec<u8>, u64),
    CodecError,
>)
    ensures
        proof_read(decoded) == decoded_proof(bytes@),
{
    postcard::from_bytes(bytes)
}

} // verus!
