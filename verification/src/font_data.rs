//! Reading and writing big-endian scalars in font data.

use vstd::prelude::*;

verus! {

/// Why font data could not be read as a table.
#[derive(Debug, Clone, Copy, PartialEq, Eq, Structural)]
pub enum ReadError {
    /// the data ends before the table does
    OutOfBounds,
    /// the leading discriminant names no variant
    InvalidFormat(u32),
    /// the table's version is not one that the reader knows
    VersionMismatch,
    /// the schema does not give the size of a field as it stands, so
    /// that the table cannot be followed without its own reader
    Unsized,
}

/// The number that `bytes` spell, most significant byte first.
pub open spec fn be_uint(bytes: Seq<u8>) -> nat
    decreases bytes.len(),
{
    if bytes.len() == 0 {
        0
    } else {
        be_uint(bytes.drop_last()) * 256 + bytes.last() as nat
    }
}

/// The `width` bytes that spell `value`, most significant byte first.
pub open spec fn be_bytes(value: nat, width: nat) -> Seq<u8>
    decreases width,
{
    if width == 0 {
        Seq::empty()
    } else {
        be_bytes(value / 256, (width - 1) as nat).push((value % 256) as u8)
    }
}

/// The largest number that `width` bytes spell, plus one.
pub open spec fn limit(width: nat) -> nat
    decreases width,
{
    if width == 0 {
        1
    } else {
        limit((width - 1) as nat) * 256
    }
}

/// Bytes spell a number below the limit of their count.
pub proof fn lemma_be_uint_bound(bytes: Seq<u8>)
    ensures
        be_uint(bytes) < limit(bytes.len()),
    decreases bytes.len(),
{
    if bytes.len() > 0 {
        lemma_be_uint_bound(bytes.drop_last());
    }
}

/// Reading bytes and writing the number back gives the bytes.
pub proof fn lemma_read_then_write(bytes: Seq<u8>)
    ensures
        be_bytes(be_uint(bytes), bytes.len()) == bytes,
    decreases bytes.len(),
{
    if bytes.len() > 0 {
        lemma_read_then_write(bytes.drop_last());
        let value = be_uint(bytes);
        assert(value / 256 == be_uint(bytes.drop_last()));
        assert(value % 256 == bytes.last() as nat);
        assert(be_bytes(value, bytes.len()) =~= bytes);
    } else {
        assert(be_bytes(0, 0) =~= bytes);
    }
}

/// The number that the `width` bytes from `offset` on spell, where the
/// data holds them. `width` is at most eight.
pub fn read_be(data: &[u8], offset: usize, width: usize) -> (value: Option<u64>)
    requires
        width <= 8,
    ensures
        value is Some <==> offset + width <= data@.len(),
        value matches Some(v) ==> v == be_uint(
            data@.subrange(offset as int, offset + width),
        ),
{
    if offset > data.len() || width > data.len() - offset {
        return None;
    }
    let mut value: u64 = 0;
    let mut i: usize = 0;
    let ghost bytes = data@.subrange(offset as int, offset + width);
    assert(bytes.take(0) =~= Seq::<u8>::empty());
    while i < width
        invariant
            i <= width <= 8,
            offset + width <= data@.len() <= usize::MAX,
            bytes == data@.subrange(offset as int, offset + width),
            value == be_uint(bytes.take(i as int)),
            value < limit(i as nat),
        decreases width - i,
    {
        proof {
            assert(bytes.take(i + 1).drop_last() =~= bytes.take(i as int));
            assert(bytes.take(i + 1).last() == data@[offset + i]);
            lemma_limit_values();
            lemma_be_uint_bound(bytes.take(i + 1));
            assert(limit((i + 1) as nat) <= limit(8)) by {
                lemma_limit_monotonic((i + 1) as nat, 8);
            }
        }
        value = value * 256 + data[offset + i] as u64;
        i += 1;
    }
    assert(bytes.take(i as int) =~= bytes);
    Some(value)
}

/// The limits of the widths up to eight.
pub proof fn lemma_limit_values()
    ensures
        limit(0) == 1,
        limit(1) == 0x100,
        limit(2) == 0x1_0000,
        limit(3) == 0x100_0000,
        limit(4) == 0x1_0000_0000,
        limit(8) == 0x1_0000_0000_0000_0000,
{
    reveal_with_fuel(limit, 9);
}

/// A wider field has a larger limit.
pub proof fn lemma_limit_monotonic(a: nat, b: nat)
    requires
        a <= b,
    ensures
        limit(a) <= limit(b),
        limit(a) >= 1,
    decreases b,
{
    if a < b {
        lemma_limit_monotonic(a, (b - 1) as nat);
    } else if a > 0 {
        lemma_limit_monotonic((a - 1) as nat, (a - 1) as nat);
    }
}

/// Appends the `width` bytes that spell `value`, which fits in them.
pub fn write_be(out: &mut Vec<u8>, value: u64, width: usize)
    requires
        width <= 8,
        value < limit(width as nat),
    ensures
        final(out)@ == old(out)@ + be_bytes(value as nat, width as nat),
    decreases width,
{
    if width == 0 {
        assert(out@ =~= old(out)@ + be_bytes(value as nat, 0));
        return ;
    }
    proof {
        lemma_limit_values();
        lemma_limit_monotonic((width - 1) as nat, 8);
        assert(limit(width as nat) == limit((width - 1) as nat) * 256);
    }
    write_be(out, value / 256, width - 1);
    out.push((value % 256) as u8);
    assert(out@ =~= old(out)@ + be_bytes(value as nat, width as nat));
}

/// The signed number that an unsigned number of `width` bytes stands
/// for in two's complement.
pub open spec fn signed(value: nat, width: nat) -> int {
    if value * 2 >= limit(width) {
        value - limit(width)
    } else {
        value as int
    }
}

/// What an offset points to: the data from the offset on.
///
/// Offset safety: the target lies within the data. An offset behind
/// the end of the data has no target.
pub fn resolve<'a>(offset: u32, data: &'a [u8]) -> (r: Result<&'a [u8], ReadError>)
    ensures
        match r {
            Ok(target) => offset <= data@.len() && target@ == data@.subrange(
                offset as int,
                data@.len() as int,
            ),
            Err(e) => e == ReadError::OutOfBounds && offset > data@.len(),
        },
{
    if offset as usize > data.len() {
        Err(ReadError::OutOfBounds)
    } else {
        Ok(vstd::slice::slice_subrange(data, offset as usize, data.len()))
    }
}

/// What a nullable offset points to: nothing where it is zero, and else
/// what an offset points to.
pub fn resolve_nullable<'a>(offset: u32, data: &'a [u8]) -> (r: Option<Result<&'a [u8], ReadError>>)
    ensures
        r is None <==> offset == 0,
        match r {
            Some(Ok(target)) => offset <= data@.len() && target@ == data@.subrange(
                offset as int,
                data@.len() as int,
            ),
            Some(Err(e)) => e == ReadError::OutOfBounds && offset > data@.len(),
            None => true,
        },
{
    if offset == 0 {
        None
    } else {
        Some(resolve(offset, data))
    }
}

} // verus!
