//! Little-endian and big-endian byte encodings of unsigned numbers, and the
//! buffer operations that append them.

use vstd::prelude::*;

verus! {

/// The number of values that `width` bytes can hold: 256 to the power `width`.
pub open spec fn byte_limit(width: nat) -> nat
    decreases width,
{
    if width == 0 {
        1
    } else {
        256 * byte_limit((width - 1) as nat)
    }
}

/// The `width` low bytes of `value`, least significant byte first.
pub open spec fn le_bytes(value: nat, width: nat) -> Seq<u8>
    decreases width,
{
    if width == 0 {
        Seq::<u8>::empty()
    } else {
        seq![(value % 256) as u8] + le_bytes(value / 256, (width - 1) as nat)
    }
}

/// The number that `bytes` holds, least significant byte first.
pub open spec fn le_value(bytes: Seq<u8>) -> nat
    decreases bytes.len(),
{
    if bytes.len() == 0 {
        0
    } else {
        bytes[0] as nat + 256 * le_value(bytes.drop_first())
    }
}

/// The `width` low bytes of `value`, most significant byte first.
pub open spec fn be_bytes(value: nat, width: nat) -> Seq<u8>
    decreases width,
{
    if width == 0 {
        Seq::<u8>::empty()
    } else {
        be_bytes(value / 256, (width - 1) as nat).push((value % 256) as u8)
    }
}

/// The number that `bytes` holds, most significant byte first.
pub open spec fn be_value(bytes: Seq<u8>) -> nat
    decreases bytes.len(),
{
    if bytes.len() == 0 {
        0
    } else {
        256 * be_value(bytes.drop_last()) + bytes.last() as nat
    }
}

/// The bit pattern of a signed 64-bit number, read as an unsigned one.
pub open spec fn twos_complement_64(value: int) -> nat {
    if value < 0 {
        (value + 0x1_0000_0000_0000_0000) as nat
    } else {
        value as nat
    }
}

/// An encoding has as many bytes as were asked for.
pub proof fn le_bytes_len(value: nat, width: nat)
    ensures
        le_bytes(value, width).len() == width,
    decreases width,
{
    if width > 0 {
        le_bytes_len(value / 256, (width - 1) as nat);
    }
}

/// Decoding an encoding gives the number back, when the number fits the width.
pub proof fn le_value_of_le_bytes(value: nat, width: nat)
    requires
        value < byte_limit(width),
    ensures
        le_value(le_bytes(value, width)) == value,
    decreases width,
{
    if width > 0 {
        let rest = le_bytes(value / 256, (width - 1) as nat);
        let all = le_bytes(value, width);
        le_value_of_le_bytes(value / 256, (width - 1) as nat);
        le_bytes_len(value / 256, (width - 1) as nat);
        assert(all.drop_first() =~= rest);
        assert(all[0] == (value % 256) as u8);
    }
}

/// A decoded number fits the width of its encoding.
pub proof fn le_value_bound(bytes: Seq<u8>)
    ensures
        le_value(bytes) < byte_limit(bytes.len()),
    decreases bytes.len(),
{
    if bytes.len() > 0 {
        le_value_bound(bytes.drop_first());
    }
}

/// Encoding a decoded number gives the bytes back.
pub proof fn le_bytes_of_le_value(bytes: Seq<u8>)
    ensures
        le_bytes(le_value(bytes), bytes.len()) == bytes,
    decreases bytes.len(),
{
    if bytes.len() > 0 {
        let rest = bytes.drop_first();
        le_bytes_of_le_value(rest);
        let value = le_value(bytes);
        assert(value == bytes[0] as nat + 256 * le_value(rest));
        assert(value % 256 == bytes[0] as nat);
        assert(value / 256 == le_value(rest));
        assert(le_bytes(value, bytes.len()) =~= bytes);
    } else {
        assert(le_bytes(le_value(bytes), bytes.len()) =~= bytes);
    }
}

/// An encoding has as many bytes as were asked for.
pub proof fn be_bytes_len(value: nat, width: nat)
    ensures
        be_bytes(value, width).len() == width,
    decreases width,
{
    if width > 0 {
        be_bytes_len(value / 256, (width - 1) as nat);
    }
}

/// Decoding an encoding gives the number back, when the number fits the width.
pub proof fn be_value_of_be_bytes(value: nat, width: nat)
    requires
        value < byte_limit(width),
    ensures
        be_value(be_bytes(value, width)) == value,
    decreases width,
{
    if width > 0 {
        let rest = be_bytes(value / 256, (width - 1) as nat);
        let all = be_bytes(value, width);
        be_value_of_be_bytes(value / 256, (width - 1) as nat);
        be_bytes_len(value / 256, (width - 1) as nat);
        assert(all.drop_last() =~= rest);
        assert(all.last() == (value % 256) as u8);
    }
}

/// Appends one byte to a buffer.
///
/// Calls `bytes::BufMut::put_u8` on a `Vec<u8>`, which grows the vector by the
/// byte given and leaves what it held before in place.
#[verifier::external_body]
pub(crate) fn put_u8(buf: &mut Vec<u8>, n: u8)
    ensures
        final(buf)@ == old(buf)@.push(n),
{
    bytes::BufMut::put_u8(buf, n)
}

/// Appends a slice of bytes to a buffer.
///
/// Calls `bytes::BufMut::put_slice` on a `Vec<u8>`, which extends the vector
/// by the bytes of the slice, in order.
#[verifier::external_body]
pub(crate) fn put_slice(buf: &mut Vec<u8>, src: &[u8])
    ensures
        final(buf)@ == old(buf)@ + src@,
{
    bytes::BufMut::put_slice(buf, src)
}

/// Appends a 16-bit number to a buffer, least significant byte first.
///
/// Calls `bytes::BufMut::put_u16_le` on a `Vec<u8>`, which extends the vector
/// by the two bytes of the number in little-endian order.
#[verifier::external_body]
pub(crate) fn put_u16_le(buf: &mut Vec<u8>, n: u16)
    ensures
        final(buf)@ == old(buf)@ + le_bytes(n as nat, 2),
{
    bytes::BufMut::put_u16_le(buf, n)
}

/// Appends a 64-bit number to a buffer, least significant byte first.
///
/// Calls `bytes::BufMut::put_u64_le` on a `Vec<u8>`, which extends the vector
/// by the eight bytes of the number in little-endian order.
#[verifier::external_body]
pub(crate) fn put_u64_le(buf: &mut Vec<u8>, n: u64)
    ensures
        final(buf)@ == old(buf)@ + le_bytes(n as nat, 8),
{
    bytes::BufMut::put_u64_le(buf, n)
}

/// Appends a signed 64-bit number to a buffer, least significant byte first.
///
/// Calls `bytes::BufMut::put_i64_le` on a `Vec<u8>`, which extends the vector
/// by the eight bytes of the number's two's complement bit pattern in
/// little-endian order.
#[verifier::external_body]
pub(crate) fn put_i64_le(buf: &mut Vec<u8>, n: i64)
    ensures
        final(buf)@ == old(buf)@ + le_bytes(twos_complement_64(n as int), 8),
{
    bytes::BufMut::put_i64_le(buf, n)
}

/// Appends the `width` low bytes of a number to a buffer, least significant
/// byte first.
pub fn put_uint_le(buf: &mut Vec<u8>, value: u64, width: usize)
    ensures
        final(buf)@ == old(buf)@ + le_bytes(value as nat, width as nat),
{
    let mut rest: u64 = value;
    let mut done: usize = 0;
    while done < width
        invariant
            done <= width,
            buf@ + le_bytes(rest as nat, (width - done) as nat) == old(buf)@ + le_bytes(
                value as nat,
                width as nat,
            ),
        decreases width - done,
    {
        let ghost before = buf@;
        let low: u8 = (rest % 256) as u8;
        put_u8(buf, low);
        proof {
            let tail = le_bytes(rest as nat / 256, (width - done - 1) as nat);
            assert(le_bytes(rest as nat, (width - done) as nat) == seq![low] + tail);
            assert(before.push(low) + tail =~= before + (seq![low] + tail));
        }
        rest = rest / 256;
        done = done + 1;
    }
    proof {
        assert(le_bytes(rest as nat, 0) =~= Seq::<u8>::empty());
        assert(buf@ + Seq::<u8>::empty() =~= buf@);
    }
}

/// Reads the number that a slice of at most eight bytes holds, least
/// significant byte first.
pub fn read_uint_le(bytes: &[u8]) -> (value: u64)
    requires
        bytes@.len() <= 8,
    ensures
        value as nat == le_value(bytes@),
{
    let mut value: u64 = 0;
    let mut at: usize = bytes.len();
    proof {
        assert(bytes@.subrange(at as int, bytes@.len() as int) =~= Seq::<u8>::empty());
    }
    while at > 0
        invariant
            at <= bytes@.len() <= 8,
            value as nat == le_value(bytes@.subrange(at as int, bytes@.len() as int)),
        decreases at,
    {
        at = at - 1;
        proof {
            let tail = bytes@.subrange(at as int, bytes@.len() as int);
            let shorter = bytes@.subrange(at as int + 1, bytes@.len() as int);
            assert(tail.drop_first() =~= shorter);
            assert(tail[0] == bytes@[at as int]);
            le_value_bound(shorter);
            byte_limit_monotone(shorter.len(), 7);
            assert(byte_limit(7) == 0x100_0000_0000_0000) by {
                reveal_with_fuel(byte_limit, 8);
            }
        }
        value = value * 256 + bytes[at] as u64;
    }
    proof {
        assert(bytes@.subrange(0, bytes@.len() as int) =~= bytes@);
    }
    value
}

/// More bytes hold more values.
pub proof fn byte_limit_monotone(narrow: nat, wide: nat)
    requires
        narrow <= wide,
    ensures
        byte_limit(narrow) <= byte_limit(wide),
        byte_limit(narrow) >= 1,
    decreases wide,
{
    if narrow < wide {
        byte_limit_monotone(narrow, (wide - 1) as nat);
    } else if narrow > 0 {
        byte_limit_monotone((narrow - 1) as nat, (wide - 1) as nat);
    }
}

/// Four bytes, most significant first, are the encoding of the number they spell.
pub proof fn be_bytes_of_4(b0: u8, b1: u8, b2: u8, b3: u8)
    ensures
        be_bytes((((b0 as nat * 256 + b1 as nat) * 256 + b2 as nat) * 256 + b3 as nat), 4) == seq![
            b0,
            b1,
            b2,
            b3,
        ],
{
    reveal_with_fuel(be_bytes, 5);
    let v = (((b0 as nat * 256 + b1 as nat) * 256 + b2 as nat) * 256 + b3 as nat);
    assert(be_bytes(v, 4) =~= seq![b0, b1, b2, b3]);
}

/// Two bytes, most significant first, are the encoding of the number they spell.
pub proof fn be_bytes_of_2(b0: u8, b1: u8)
    ensures
        be_bytes((b0 as nat * 256 + b1 as nat), 2) == seq![b0, b1],
{
    reveal_with_fuel(be_bytes, 3);
    assert(be_bytes((b0 as nat * 256 + b1 as nat), 2) =~= seq![b0, b1]);
}

/// Four bytes, least significant first, are the encoding of the number they spell.
pub proof fn le_bytes_of_4(b0: u8, b1: u8, b2: u8, b3: u8)
    ensures
        le_bytes((((b3 as nat * 256 + b2 as nat) * 256 + b1 as nat) * 256 + b0 as nat), 4) == seq![
            b0,
            b1,
            b2,
            b3,
        ],
{
    reveal_with_fuel(le_bytes, 5);
    let v = (((b3 as nat * 256 + b2 as nat) * 256 + b1 as nat) * 256 + b0 as nat);
    assert(le_bytes(v, 4) =~= seq![b0, b1, b2, b3]);
}

/// Two bytes, least significant first, are the encoding of the number they spell.
pub proof fn le_bytes_of_2(b0: u8, b1: u8)
    ensures
        le_bytes((b1 as nat * 256 + b0 as nat), 2) == seq![b0, b1],
{
    reveal_with_fuel(le_bytes, 3);
    assert(le_bytes((b1 as nat * 256 + b0 as nat), 2) =~= seq![b0, b1]);
}

} // verus!
