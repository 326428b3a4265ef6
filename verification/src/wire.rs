//! Byte layout of the values that cross the user/kernel boundary.
//!
//! Scalars travel little-endian.  The model is positional arithmetic in base
//! 256, so the layout of a record is a plain concatenation of digit strings.

use vstd::prelude::*;

verus! {

/// How many values `width` bytes can tell apart: 256 to the power `width`.
pub open spec fn span(width: nat) -> nat
    decreases width,
{
    if width == 0 {
        1
    } else {
        256 * span((width - 1) as nat)
    }
}

/// The `width` lowest base-256 digits of `value`, least significant first.
pub open spec fn le_bytes(value: nat, width: nat) -> Seq<u8>
    decreases width,
{
    if width == 0 {
        Seq::empty()
    } else {
        seq![(value % 256) as u8] + le_bytes(value / 256, (width - 1) as nat)
    }
}

/// The number whose base-256 digits, least significant first, are `bytes`.
pub open spec fn le_value(bytes: Seq<u8>) -> nat
    decreases bytes.len(),
{
    if bytes.len() == 0 {
        0
    } else {
        bytes[0] as nat + 256 * le_value(bytes.drop_first())
    }
}

/// `count` zero bytes, the filler between fields of a record.
pub open spec fn padding(count: nat) -> Seq<u8> {
    Seq::new(count, |i: int| 0u8)
}

/// A value with a fixed byte layout on the wire.
///
/// The layout is part of the contract with the privileged component: field
/// order, widths and filler have to match what it reads.
pub trait WireRecord {
    /// The bytes that stand for the value.
    spec fn layout(&self) -> Seq<u8>;

    /// Writes the value out in its layout.
    fn to_bytes(&self) -> (bytes: Vec<u8>)
        ensures
            bytes@ == self.layout(),
    ;
}

/// Appends the `width` lowest bytes of `value` to `buf`, least significant
/// first.
pub fn put_le(buf: &mut Vec<u8>, value: u64, width: usize)
    ensures
        final(buf)@ == old(buf)@ + le_bytes(value as nat, width as nat),
{
    let mut rest: u64 = value;
    let mut done: usize = 0;
    assert(span(0) == 1);
    while done < width
        invariant
            done <= width,
            rest as nat == (value as nat) / span(done as nat),
            buf@ == old(buf)@ + le_bytes(value as nat, done as nat),
        decreases width - done,
    {
        proof {
            lemma_le_bytes_push(value as nat, done as nat);
            lemma_span_positive(done as nat);
            lemma_div_twice(value as nat, span(done as nat), 256);
            assert(span(done as nat) * 256 == span((done + 1) as nat)) by (nonlinear_arith)
                requires
                    span((done + 1) as nat) == 256 * span(done as nat),
            ;
        }
        let digit: u8 = (rest % 256) as u8;
        buf.push(digit);
        rest = rest / 256;
        done = done + 1;
        assert(buf@ =~= old(buf)@ + le_bytes(value as nat, done as nat));
    }
}

/// Reads `bytes` as one little-endian number.  Up to eight bytes fit the
/// result; nine or more give `None`.
pub fn read_le(bytes: &[u8]) -> (value: Option<u64>)
    ensures
        value is Some <==> bytes@.len() <= 8,
        value matches Some(number) ==> number as nat == le_value(bytes@),
{
    let len: usize = bytes.len();
    if len > 8 {
        return None;
    }
    let mut acc: u64 = 0;
    let mut at: usize = len;
    assert(bytes@.subrange(len as int, len as int) =~= Seq::empty());
    while at > 0
        invariant
            at <= len <= 8,
            len == bytes@.len(),
            acc as nat == le_value(bytes@.subrange(at as int, len as int)),
        decreases at,
    {
        let ghost tail = bytes@.subrange(at as int, len as int);
        let ghost longer = bytes@.subrange(at - 1, len as int);
        proof {
            lemma_le_bytes_of_value(tail);
            lemma_span_grows(tail.len(), 7);
            lemma_span_of_scalars();
            assert(longer.drop_first() =~= tail);
        }
        at = at - 1;
        acc = acc * 256 + bytes[at] as u64;
    }
    assert(bytes@.subrange(0, len as int) =~= bytes@);
    Some(acc)
}

/// An encoding is as long as asked for.
pub proof fn lemma_le_bytes_len(value: nat, width: nat)
    ensures
        le_bytes(value, width).len() == width,
    decreases width,
{
    if width > 0 {
        lemma_le_bytes_len(value / 256, (width - 1) as nat);
    }
}

/// Decoding an encoding gives the value back, as long as the value fits.
pub proof fn lemma_le_value_of_bytes(value: nat, width: nat)
    requires
        value < span(width),
    ensures
        le_value(le_bytes(value, width)) == value,
    decreases width,
{
    if width > 0 {
        let rest = le_bytes(value / 256, (width - 1) as nat);
        lemma_le_bytes_len(value / 256, (width - 1) as nat);
        assert(le_bytes(value, width).drop_first() =~= rest);
        lemma_le_value_of_bytes(value / 256, (width - 1) as nat);
    }
}

/// A decoding fits the width of what was decoded, and encoding it gives the
/// bytes back.
pub proof fn lemma_le_bytes_of_value(bytes: Seq<u8>)
    ensures
        le_value(bytes) < span(bytes.len()),
        le_bytes(le_value(bytes), bytes.len()) == bytes,
    decreases bytes.len(),
{
    if bytes.len() > 0 {
        let tail = bytes.drop_first();
        lemma_le_bytes_of_value(tail);
        let value = le_value(bytes);
        assert(value % 256 == bytes[0] as nat && value / 256 == le_value(tail)) by {
            assert(value == bytes[0] as nat + 256 * le_value(tail));
        }
        assert(le_bytes(value, bytes.len()) =~= bytes);
    }
}

/// Four bytes hold every `u32`, seven bytes leave room for one more, and
/// eight bytes hold every `u64`.
pub proof fn lemma_span_of_scalars()
    ensures
        span(4) == 0x1_0000_0000,
        span(7) == 0x100_0000_0000_0000,
        span(8) == 0x1_0000_0000_0000_0000,
{
    reveal_with_fuel(span, 9);
}

/// The digits of a value, with the most significant of them split off.
proof fn lemma_le_bytes_push(value: nat, width: nat)
    ensures
        le_bytes(value, width + 1) == le_bytes(value, width).push(
            ((value / span(width)) % 256) as u8,
        ),
    decreases width,
{
    if width == 0 {
        assert(span(0) == 1);
        assert(le_bytes(value / 256, 0) =~= Seq::empty());
        assert(le_bytes(value, 1) =~= le_bytes(value, 0).push((value % 256) as u8));
    } else {
        let high = value / 256;
        lemma_le_bytes_push(high, (width - 1) as nat);
        assert(high / span((width - 1) as nat) == value / span(width)) by {
            lemma_span_positive((width - 1) as nat);
            lemma_div_twice(value, 256, span((width - 1) as nat));
        }
        assert(le_bytes(value, width + 1) =~= le_bytes(value, width).push(
            ((value / span(width)) % 256) as u8,
        ));
    }
}

proof fn lemma_span_positive(width: nat)
    ensures
        span(width) > 0,
    decreases width,
{
    if width > 0 {
        lemma_span_positive((width - 1) as nat);
    }
}

/// More bytes tell more values apart.
proof fn lemma_span_grows(narrow: nat, wide: nat)
    requires
        narrow <= wide,
    ensures
        span(narrow) <= span(wide),
    decreases wide - narrow,
{
    if narrow < wide {
        lemma_span_grows(narrow + 1, wide);
        lemma_span_positive(narrow);
    }
}

/// Dividing by `a` and then by `b` is dividing by their product.
proof fn lemma_div_twice(value: nat, a: nat, b: nat)
    requires
        a > 0,
        b > 0,
    ensures
        (value / a) / b == value / (a * b),
{
    vstd::arithmetic::div_mod::lemma_div_denominator(value as int, a as int, b as int);
}

} // verus!
