//! Byte strings: comparison and big-endian integers.

use vstd::prelude::*;
use vstd::slice::slice_to_vec;

verus! {

/// The bytes of an ASCII text, one per character.
pub open spec fn ascii(text: Seq<char>) -> Seq<u8> {
    text.map_values(|c: char| c as u8)
}

/// The four bytes of `x`, most significant first.
pub open spec fn be32(x: u32) -> Seq<u8> {
    seq![
        (x / 0x100_0000) as u8,
        (x / 0x1_0000 % 0x100) as u8,
        (x / 0x100 % 0x100) as u8,
        (x % 0x100) as u8,
    ]
}

/// The number that four bytes hold, most significant first.
pub open spec fn be32_value(b: Seq<u8>) -> int {
    b[0] * 0x100_0000 + b[1] * 0x1_0000 + b[2] * 0x100 + b[3]
}

/// The eight bytes of `x`, most significant first.
pub open spec fn be64(x: u64) -> Seq<u8> {
    be32((x / 0x1_0000_0000) as u32) + be32((x % 0x1_0000_0000) as u32)
}

/// Reading back four bytes gives the number that they were made from.
pub proof fn be32_round_trip(x: u32)
    ensures
        be32(x).len() == 4,
        be32_value(be32(x)) == x,
{
}

/// The bytes of the number that four bytes hold are these four bytes.
proof fn be32_of_value(b0: u8, b1: u8, b2: u8, b3: u8)
    ensures
        be32((b0 * 0x100_0000 + b1 * 0x1_0000 + b2 * 0x100 + b3) as u32) == seq![b0, b1, b2, b3],
{
    let x = b0 * 0x100_0000 + b1 * 0x1_0000 + b2 * 0x100 + b3;
    assert(x / 0x1_0000 == b0 * 0x100 + b1);
    assert(x / 0x100 == (b0 * 0x100 + b1) * 0x100 + b2);
    assert(be32(x as u32) =~= seq![b0, b1, b2, b3]);
}

/// Two numbers with the same four bytes are the same number.
pub proof fn be32_injective(x: u32, y: u32)
    requires
        be32(x) == be32(y),
    ensures
        x == y,
{
    be32_round_trip(x);
    be32_round_trip(y);
}

/// Two numbers with the same eight bytes are the same number.
pub proof fn be64_injective(x: u64, y: u64)
    requires
        be64(x) == be64(y),
    ensures
        x == y,
{
    let (xh, xl) = ((x / 0x1_0000_0000) as u32, (x % 0x1_0000_0000) as u32);
    let (yh, yl) = ((y / 0x1_0000_0000) as u32, (y % 0x1_0000_0000) as u32);
    assert(be32(xh) =~= be64(x).subrange(0, 4));
    assert(be32(yh) =~= be64(y).subrange(0, 4));
    assert(be32(xl) =~= be64(x).subrange(4, 8));
    assert(be32(yl) =~= be64(y).subrange(4, 8));
    be32_injective(xh, yh);
    be32_injective(xl, yl);
}

/// Whether two byte strings are equal.
pub fn bytes_eq(a: &[u8], b: &[u8]) -> (equal: bool)
    ensures
        equal == (a@ == b@),
{
    if a.len() != b.len() {
        return false;
    }
    let mut i: usize = 0;
    while i < a.len()
        invariant
            i <= a@.len(),
            a@.len() == b@.len(),
            forall|j: int| 0 <= j < i ==> a@[j] == b@[j],
        decreases a@.len() - i,
    {
        if a[i] != b[i] {
            return false;
        }
        i = i + 1;
    }
    assert(a@ =~= b@);
    true
}

/// The bytes of an ASCII text.
pub fn ascii_bytes(text: &str) -> (bytes: Vec<u8>)
    requires
        vstd::string::is_ascii(text),
    ensures
        bytes@ == ascii(text@),
{
    proof {
        vstd::string::is_ascii_spec_bytes(text);
    }
    let bytes = slice_to_vec(text.as_bytes());
    assert(bytes@ =~= ascii(text@));
    bytes
}

/// Appends a byte string.
pub fn put_bytes(buf: &mut Vec<u8>, bytes: &[u8])
    ensures
        final(buf)@ == old(buf)@ + bytes@,
{
    buf.extend_from_slice(bytes);
    assert(buf@ =~= old(buf)@ + bytes@);
}

/// Appends the four bytes of `x`, most significant first.
pub fn put_be32(buf: &mut Vec<u8>, x: u32)
    ensures
        final(buf)@ == old(buf)@ + be32(x),
{
    buf.push((x / 0x100_0000) as u8);
    buf.push((x / 0x1_0000 % 0x100) as u8);
    buf.push((x / 0x100 % 0x100) as u8);
    buf.push((x % 0x100) as u8);
    assert(buf@ =~= old(buf)@ + be32(x));
}

/// Appends the eight bytes of `x`, most significant first.
pub fn put_be64(buf: &mut Vec<u8>, x: u64)
    ensures
        final(buf)@ == old(buf)@ + be64(x),
{
    put_be32(buf, (x / 0x1_0000_0000) as u32);
    put_be32(buf, (x % 0x1_0000_0000) as u32);
    assert(buf@ =~= old(buf)@ + be64(x));
}

/// The number that four bytes hold, most significant first.
pub fn get_be32(b: &[u8]) -> (x: u32)
    requires
        b@.len() == 4,
    ensures
        x == be32_value(b@),
        be32(x) == b@,
{
    let x: u32 = b[0] as u32 * 0x100_0000 + b[1] as u32 * 0x1_0000 + b[2] as u32 * 0x100
        + b[3] as u32;
    proof {
        be32_of_value(b[0], b[1], b[2], b[3]);
    }
    assert(be32(x) =~= b@);
    x
}

} // verus!
