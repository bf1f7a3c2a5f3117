//! Little-endian integers inside byte buffers.
//!
//! Every multi-byte field of the protocol is an unsigned integer stored least
//! significant byte first. The meaning of such a field is given arithmetically
//! by [`le_value`]; [`le_bytes`] is its inverse on a fixed width.

use vstd::arithmetic::div_mod::{lemma_div_denominator, lemma_mod_breakdown, lemma_small_mod};
use vstd::prelude::*;

verus! {

/// 256 raised to the power `n`.
pub open spec fn pow256(n: nat) -> nat
    decreases n,
{
    if n == 0 {
        1
    } else {
        256 * pow256((n - 1) as nat)
    }
}

/// The number that the bytes of `s` spell, least significant byte first.
pub open spec fn le_value(s: Seq<u8>) -> nat
    decreases s.len(),
{
    if s.len() == 0 {
        0
    } else {
        s[0] as nat + 256 * le_value(s.skip(1))
    }
}

/// The `width` low-order bytes of `x`, least significant byte first.
pub open spec fn le_bytes(x: nat, width: nat) -> Seq<u8>
    decreases width,
{
    if width == 0 {
        Seq::empty()
    } else {
        seq![(x % 256) as u8] + le_bytes(x / 256, (width - 1) as nat)
    }
}

/// The integer stored in the `width` bytes of `s` that start at `offset`.
pub open spec fn field(s: Seq<u8>, offset: int, width: int) -> nat {
    le_value(s.subrange(offset, offset + width))
}

/// The powers of 256 that bound the integer widths of the protocol.
pub proof fn lemma_pow256_values()
    ensures
        pow256(0) == 1,
        pow256(1) == 0x100,
        pow256(2) == 0x1_0000,
        pow256(3) == 0x100_0000,
        pow256(4) == 0x1_0000_0000,
        pow256(8) == 0x1_0000_0000_0000_0000,
        pow256(16) == 0x1_0000_0000_0000_0000_0000_0000_0000_0000,
{
    reveal_with_fuel(pow256, 17);
}

/// `pow256` is monotonic.
pub proof fn lemma_pow256_monotonic(a: nat, b: nat)
    requires
        a <= b,
    ensures
        0 < pow256(a) <= pow256(b),
    decreases b,
{
    if b == 0 {
    } else if a == b {
        lemma_pow256_monotonic((a - 1) as nat, (b - 1) as nat);
    } else {
        lemma_pow256_monotonic(a, (b - 1) as nat);
    }
}

/// A little-endian number of `n` bytes is below `256^n`.
pub proof fn lemma_le_value_bound(s: Seq<u8>)
    ensures
        le_value(s) < pow256(s.len()),
    decreases s.len(),
{
    if s.len() > 0 {
        lemma_le_value_bound(s.skip(1));
    }
}

/// `le_bytes` yields exactly `width` bytes.
pub proof fn lemma_le_bytes_len(x: nat, width: nat)
    ensures
        le_bytes(x, width).len() == width,
    decreases width,
{
    if width > 0 {
        lemma_le_bytes_len(x / 256, (width - 1) as nat);
    }
}

/// Reading back what `le_bytes` wrote gives the number again, as far as it
/// fitted into the width.
pub proof fn lemma_le_value_of_bytes(x: nat, width: nat)
    ensures
        le_value(le_bytes(x, width)) == x % pow256(width),
        x < pow256(width) ==> le_value(le_bytes(x, width)) == x,
    decreases width,
{
    lemma_pow256_monotonic(0, width);
    if width == 0 {
    } else {
        let rest = le_bytes(x / 256, (width - 1) as nat);
        let s = le_bytes(x, width);
        assert(s.skip(1) =~= rest);
        assert(s[0] == (x % 256) as u8);
        lemma_le_value_of_bytes(x / 256, (width - 1) as nat);
        let p = pow256((width - 1) as nat);
        lemma_pow256_monotonic(0, (width - 1) as nat);
        lemma_mod_breakdown(x as int, 256, p as int);
    }
    if x < pow256(width) {
        lemma_small_mod(x, pow256(width));
    }
}

/// Writing the number that a buffer spells gives the buffer again.
pub proof fn lemma_le_bytes_of_value(s: Seq<u8>)
    ensures
        le_bytes(le_value(s), s.len()) == s,
    decreases s.len(),
{
    if s.len() == 0 {
        assert(le_bytes(le_value(s), s.len()) =~= s);
    } else {
        let v = le_value(s);
        let tail = s.skip(1);
        lemma_le_bytes_of_value(tail);
        assert(v % 256 == s[0] as nat);
        assert(v / 256 == le_value(tail));
        assert(le_bytes(v, s.len()) =~= s);
    }
}

/// Appending one byte to `le_bytes(x, width)` gives `le_bytes(x, width + 1)`:
/// the new byte is the next base-256 digit of `x`.
pub proof fn lemma_le_bytes_push(x: nat, width: nat)
    ensures
        le_bytes(x, width + 1) == le_bytes(x, width).push(((x / pow256(width)) % 256) as u8),
    decreases width,
{
    if width == 0 {
        assert(pow256(0) == 1);
        assert(x / pow256(0) == x);
        assert(le_bytes(x / 256, 0) =~= Seq::<u8>::empty());
        assert(le_bytes(x, 1) =~= le_bytes(x, 0).push(((x / pow256(0)) % 256) as u8));
    } else {
        lemma_le_bytes_push(x / 256, (width - 1) as nat);
        let p = pow256((width - 1) as nat);
        lemma_pow256_monotonic(0, (width - 1) as nat);
        lemma_div_denominator(x as int, 256, p as int);
        assert(le_bytes(x, width + 1) =~= le_bytes(x, width).push(
            ((x / pow256(width)) % 256) as u8,
        ));
    }
}

/// A field that was written between two runs of bytes is read back unchanged.
pub proof fn lemma_field_in_concat(left: Seq<u8>, x: nat, width: nat, right: Seq<u8>)
    requires
        x < pow256(width),
    ensures
        field(left + le_bytes(x, width) + right, left.len() as int, width as int) == x,
        (left + le_bytes(x, width) + right).len() == left.len() + width + right.len(),
{
    lemma_le_bytes_len(x, width);
    lemma_le_value_of_bytes(x, width);
    let whole = left + le_bytes(x, width) + right;
    assert(whole.subrange(left.len() as int, (left.len() + width) as int) =~= le_bytes(x, width));
}

/// What lies in a part of a buffer is found in the buffer at the part's
/// offset.
pub proof fn lemma_field_of_subrange(data: Seq<u8>, base: int, size: int, offset: int, width: int)
    requires
        0 <= base,
        base + size <= data.len(),
        0 <= offset,
        0 <= width,
        offset + width <= size,
    ensures
        field(data.subrange(base, base + size), offset, width) == field(
            data,
            base + offset,
            width,
        ),
        data.subrange(base, base + size).subrange(offset, offset + width) == data.subrange(
            base + offset,
            base + offset + width,
        ),
{
    assert(data.subrange(base, base + size).subrange(offset, offset + width) =~= data.subrange(
        base + offset,
        base + offset + width,
    ));
}

/// Two neighbouring parts of a buffer make up the part that spans both.
pub proof fn lemma_subrange_join(data: Seq<u8>, from: int, mid: int, to: int)
    requires
        0 <= from <= mid <= to <= data.len(),
    ensures
        data.subrange(from, mid) + data.subrange(mid, to) == data.subrange(from, to),
{
    assert(data.subrange(from, mid) + data.subrange(mid, to) =~= data.subrange(from, to));
}

/// The bytes of a field are the bytes of the integer that the field holds: a
/// field has no byte that its value does not fix.
pub proof fn lemma_field_bytes(data: Seq<u8>, offset: int, width: int)
    requires
        0 <= offset,
        0 <= width,
        offset + width <= data.len(),
    ensures
        field(data, offset, width) < pow256(width as nat),
        le_bytes(field(data, offset, width), width as nat) == data.subrange(
            offset,
            offset + width,
        ),
{
    let part = data.subrange(offset, offset + width);
    lemma_le_value_bound(part);
    lemma_le_bytes_of_value(part);
}

/// Appending two runs of bytes one after the other appends their
/// concatenation.
pub proof fn lemma_append_twice(start: Seq<u8>, first: Seq<u8>, second: Seq<u8>)
    ensures
        (start + first) + second == start + (first + second),
{
    assert((start + first) + second =~= start + (first + second));
}

/// Appending to a buffer leaves what the buffer held where it was.
pub proof fn lemma_append_keeps(prefix: Seq<u8>, suffix: Seq<u8>, whole: Seq<u8>)
    requires
        whole == prefix + suffix,
    ensures
        whole.len() == prefix.len() + suffix.len(),
        whole.subrange(prefix.len() as int, whole.len() as int) == suffix,
        forall|offset: int, width: int|
            0 <= offset && 0 <= width && offset + width <= prefix.len() ==> #[trigger] field(
                whole,
                offset,
                width,
            ) == field(prefix, offset, width),
        forall|from: int, to: int|
            0 <= from <= to <= prefix.len() ==> #[trigger] whole.subrange(from, to)
                == prefix.subrange(from, to),
{
    assert(whole.subrange(prefix.len() as int, whole.len() as int) =~= suffix);
    assert forall|from: int, to: int| 0 <= from <= to <= prefix.len() implies #[trigger] whole.subrange(
        from,
        to,
    ) == prefix.subrange(from, to) by {
        assert(whole.subrange(from, to) =~= prefix.subrange(from, to));
    }
    assert forall|offset: int, width: int|
        0 <= offset && 0 <= width && offset + width <= prefix.len() implies #[trigger] field(
        whole,
        offset,
        width,
    ) == field(prefix, offset, width) by {
        assert(whole.subrange(offset, offset + width) =~= prefix.subrange(offset, offset + width));
    }
}

/// An integer that is appended to a buffer is read back at the buffer's end,
/// and what the buffer held stays where it was.
pub proof fn lemma_append_field(prefix: Seq<u8>, x: nat, width: nat, whole: Seq<u8>)
    requires
        x < pow256(width),
        whole == prefix + le_bytes(x, width),
    ensures
        whole.len() == prefix.len() + width,
        field(whole, prefix.len() as int, width as int) == x,
        forall|offset: int, w: int|
            0 <= offset && 0 <= w && offset + w <= prefix.len() ==> #[trigger] field(
                whole,
                offset,
                w,
            ) == field(prefix, offset, w),
        forall|from: int, to: int|
            0 <= from <= to <= prefix.len() ==> #[trigger] whole.subrange(from, to)
                == prefix.subrange(from, to),
{
    lemma_le_bytes_len(x, width);
    lemma_le_value_of_bytes(x, width);
    lemma_append_keeps(prefix, le_bytes(x, width), whole);
}

/// Reads the `width`-byte little-endian integer that starts at `offset`.
pub fn read_le(data: &[u8], offset: usize, width: usize) -> (v: u128)
    requires
        width <= 16,
        offset + width <= data.len(),
    ensures
        v == field(data@, offset as int, width as int),
{
    let mut acc: u128 = 0;
    let mut i: usize = width;
    assert(data@.subrange(offset + width, offset + width) =~= Seq::<u8>::empty());
    while i > 0
        invariant
            i <= width <= 16,
            offset + width <= data.len(),
            acc == le_value(data@.subrange(offset + i, offset + width)),
        decreases i,
    {
        i = i - 1;
        proof {
            let cur = data@.subrange(offset + i, offset + width);
            let prev = data@.subrange(offset + i + 1, offset + width);
            assert(cur.skip(1) =~= prev);
            lemma_le_value_bound(prev);
            lemma_pow256_monotonic(prev.len(), 15);
            lemma_pow256_values();
            assert(pow256(16) == 256 * pow256(15));
        }
        acc = acc * 256 + data[offset + i] as u128;
    }
    acc
}

/// Reads the byte at `offset`.
pub fn read_u8(data: &[u8], offset: usize) -> (v: u8)
    requires
        offset + 1 <= data.len(),
    ensures
        v == field(data@, offset as int, 1),
        v == data@[offset as int],
{
    proof {
        let s = data@.subrange(offset as int, offset + 1);
        assert(s.skip(1) =~= Seq::<u8>::empty());
        assert(le_value(s.skip(1)) == 0);
    }
    data[offset]
}

/// Reads the 16-bit integer at `offset`.
pub fn read_u16(data: &[u8], offset: usize) -> (v: u16)
    requires
        offset + 2 <= data.len(),
    ensures
        v == field(data@, offset as int, 2),
{
    let v = read_le(data, offset, 2);
    proof {
        lemma_le_value_bound(data@.subrange(offset as int, offset + 2));
        lemma_pow256_values();
    }
    v as u16
}

/// Reads the 64-bit integer at `offset`.
pub fn read_u64(data: &[u8], offset: usize) -> (v: u64)
    requires
        offset + 8 <= data.len(),
    ensures
        v == field(data@, offset as int, 8),
{
    let v = read_le(data, offset, 8);
    proof {
        lemma_le_value_bound(data@.subrange(offset as int, offset + 8));
        lemma_pow256_values();
    }
    v as u64
}

/// Reads the 128-bit integer at `offset`.
pub fn read_u128(data: &[u8], offset: usize) -> (v: u128)
    requires
        offset + 16 <= data.len(),
    ensures
        v == field(data@, offset as int, 16),
{
    read_le(data, offset, 16)
}

/// Copies the 32 bytes that start at `offset`.
pub fn read_bytes32(data: &[u8], offset: usize) -> (out: [u8; 32])
    requires
        offset + 32 <= data.len(),
    ensures
        out@ == data@.subrange(offset as int, offset + 32),
{
    let mut out: [u8; 32] = [0u8; 32];
    let mut i: usize = 0;
    while i < 32
        invariant
            i <= 32,
            offset + 32 <= data.len(),
            forall|j: int| 0 <= j < i ==> out@[j] == data@[offset + j],
        decreases 32 - i,
    {
        out[i] = data[offset + i];
        i = i + 1;
    }
    assert(out@ =~= data@.subrange(offset as int, offset + 32));
    out
}

/// Appends the `width` low-order bytes of `value`, least significant first.
pub fn write_le(out: &mut Vec<u8>, value: u128, width: usize)
    requires
        width <= 16,
    ensures
        final(out)@ == old(out)@ + le_bytes(value as nat, width as nat),
{
    let ghost before = out@;
    let mut rest: u128 = value;
    let mut i: usize = 0;
    assert(out@ =~= before + le_bytes(value as nat, 0));
    assert(value as nat / pow256(0) == value) by {
        assert(pow256(0) == 1);
    }
    while i < width
        invariant
            i <= width,
            out@ == before + le_bytes(value as nat, i as nat),
            rest == value as nat / pow256(i as nat),
        decreases width - i,
    {
        proof {
            lemma_le_bytes_push(value as nat, i as nat);
            lemma_pow256_monotonic(0, i as nat);
            lemma_div_denominator(value as int, pow256(i as nat) as int, 256);
            assert(pow256(i as nat) * 256 == pow256((i + 1) as nat));
        }
        out.push((rest % 256) as u8);
        rest = rest / 256;
        i = i + 1;
        assert(out@ =~= before + le_bytes(value as nat, i as nat));
    }
}

/// Appends the bytes of `src`.
pub fn write_bytes(out: &mut Vec<u8>, src: &[u8])
    ensures
        final(out)@ == old(out)@ + src@,
{
    let ghost before = out@;
    let mut i: usize = 0;
    assert(out@ =~= before + src@.subrange(0, 0));
    while i < src.len()
        invariant
            i <= src@.len(),
            out@ == before + src@.subrange(0, i as int),
        decreases src@.len() - i,
    {
        out.push(src[i]);
        i = i + 1;
        assert(out@ =~= before + src@.subrange(0, i as int));
    }
    assert(src@.subrange(0, i as int) =~= src@);
}

} // verus!
