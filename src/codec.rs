use crate::catalog::ByteOrder;
use crate::error::{DecodeError, Field};
use vstd::prelude::*;

verus! {

/// Value of two bytes, least significant first.
pub open spec fn le16(b0: u8, b1: u8) -> u16 {
    (b0 as u16) | ((b1 as u16) << 8u16)
}

/// Value of four bytes, least significant first.
pub open spec fn le32(b0: u8, b1: u8, b2: u8, b3: u8) -> u32 {
    (b0 as u32) | ((b1 as u32) << 8u32) | ((b2 as u32) << 16u32) | ((b3 as u32) << 24u32)
}

/// Value of eight bytes, least significant first.
pub open spec fn le64(b0: u8, b1: u8, b2: u8, b3: u8, b4: u8, b5: u8, b6: u8, b7: u8) -> u64 {
    (b0 as u64) | ((b1 as u64) << 8u64) | ((b2 as u64) << 16u64) | ((b3 as u64) << 24u64) | ((
    b4 as u64) << 32u64) | ((b5 as u64) << 40u64) | ((b6 as u64) << 48u64) | ((b7 as u64)
        << 56u64)
}

/// The 16-bit field at `off` in `s`, in byte order `o`.
pub open spec fn dec16(s: Seq<u8>, off: int, o: ByteOrder) -> u16 {
    if o == ByteOrder::BigEndian {
        le16(s[off + 1], s[off])
    } else {
        le16(s[off], s[off + 1])
    }
}

/// The 32-bit field at `off` in `s`, in byte order `o`.
pub open spec fn dec32(s: Seq<u8>, off: int, o: ByteOrder) -> u32 {
    if o == ByteOrder::BigEndian {
        le32(s[off + 3], s[off + 2], s[off + 1], s[off])
    } else {
        le32(s[off], s[off + 1], s[off + 2], s[off + 3])
    }
}

/// The 64-bit field at `off` in `s`, in byte order `o`.
pub open spec fn dec64(s: Seq<u8>, off: int, o: ByteOrder) -> u64 {
    if o == ByteOrder::BigEndian {
        le64(s[off + 7], s[off + 6], s[off + 5], s[off + 4], s[off + 3], s[off + 2], s[off + 1], s[off])
    } else {
        le64(s[off], s[off + 1], s[off + 2], s[off + 3], s[off + 4], s[off + 5], s[off + 6], s[off + 7])
    }
}

/// Bytes of `x`, least significant first.
pub open spec fn le_bytes16(x: u16) -> Seq<u8> {
    seq![x as u8, (x >> 8u16) as u8]
}

pub open spec fn le_bytes32(x: u32) -> Seq<u8> {
    seq![x as u8, (x >> 8u32) as u8, (x >> 16u32) as u8, (x >> 24u32) as u8]
}

pub open spec fn le_bytes64(x: u64) -> Seq<u8> {
    seq![
        x as u8,
        (x >> 8u64) as u8,
        (x >> 16u64) as u8,
        (x >> 24u64) as u8,
        (x >> 32u64) as u8,
        (x >> 40u64) as u8,
        (x >> 48u64) as u8,
        (x >> 56u64) as u8,
    ]
}

/// The encoding of `x` in byte order `o` (an unset order writes least significant first).
pub open spec fn enc16(x: u16, o: ByteOrder) -> Seq<u8> {
    if o == ByteOrder::BigEndian {
        le_bytes16(x).reverse()
    } else {
        le_bytes16(x)
    }
}

pub open spec fn enc32(x: u32, o: ByteOrder) -> Seq<u8> {
    if o == ByteOrder::BigEndian {
        le_bytes32(x).reverse()
    } else {
        le_bytes32(x)
    }
}

pub open spec fn enc64(x: u64, o: ByteOrder) -> Seq<u8> {
    if o == ByteOrder::BigEndian {
        le_bytes64(x).reverse()
    } else {
        le_bytes64(x)
    }
}

/// The result of reading a field of `width` bytes at `off`: an unset byte order and a
/// buffer too short are failures, checked in that order.
pub open spec fn read_outcome<T>(len: int, off: int, width: int, o: ByteOrder, f: Field, v: T) -> Result<
    T,
    DecodeError,
> {
    if o == ByteOrder::DataNone {
        Err(DecodeError::UnknownByteOrder(0))
    } else if off + width > len {
        Err(DecodeError::Truncated(f))
    } else {
        Ok(v)
    }
}

/// Reads the 16-bit field `f` at `off`.
pub fn read_u16(b: &[u8], off: usize, o: ByteOrder, f: Field) -> (r: Result<u16, DecodeError>)
    ensures
        r == read_outcome(b@.len() as int, off as int, 2, o, f, dec16(b@, off as int, o)),
{
    if o == ByteOrder::DataNone {
        return Err(DecodeError::UnknownByteOrder(0));
    }
    if off > b.len() || b.len() - off < 2 {
        return Err(DecodeError::Truncated(f));
    }
    let (b0, b1) = if o == ByteOrder::BigEndian {
        (b[off + 1], b[off])
    } else {
        (b[off], b[off + 1])
    };
    Ok((b0 as u16) | ((b1 as u16) << 8u16))
}

/// Reads the 32-bit field `f` at `off`.
pub fn read_u32(b: &[u8], off: usize, o: ByteOrder, f: Field) -> (r: Result<u32, DecodeError>)
    ensures
        r == read_outcome(b@.len() as int, off as int, 4, o, f, dec32(b@, off as int, o)),
{
    if o == ByteOrder::DataNone {
        return Err(DecodeError::UnknownByteOrder(0));
    }
    if off > b.len() || b.len() - off < 4 {
        return Err(DecodeError::Truncated(f));
    }
    let (b0, b1, b2, b3) = if o == ByteOrder::BigEndian {
        (b[off + 3], b[off + 2], b[off + 1], b[off])
    } else {
        (b[off], b[off + 1], b[off + 2], b[off + 3])
    };
    Ok((b0 as u32) | ((b1 as u32) << 8u32) | ((b2 as u32) << 16u32) | ((b3 as u32) << 24u32))
}

/// Reads the 64-bit field `f` at `off`.
pub fn read_u64(b: &[u8], off: usize, o: ByteOrder, f: Field) -> (r: Result<u64, DecodeError>)
    ensures
        r == read_outcome(b@.len() as int, off as int, 8, o, f, dec64(b@, off as int, o)),
{
    if o == ByteOrder::DataNone {
        return Err(DecodeError::UnknownByteOrder(0));
    }
    if off > b.len() || b.len() - off < 8 {
        return Err(DecodeError::Truncated(f));
    }
    let (b0, b1, b2, b3, b4, b5, b6, b7) = if o == ByteOrder::BigEndian {
        (b[off + 7], b[off + 6], b[off + 5], b[off + 4], b[off + 3], b[off + 2], b[off + 1], b[off])
    } else {
        (b[off], b[off + 1], b[off + 2], b[off + 3], b[off + 4], b[off + 5], b[off + 6], b[off + 7])
    };
    Ok((b0 as u64) | ((b1 as u64) << 8u64) | ((b2 as u64) << 16u64) | ((b3 as u64) << 24u64) | ((
    b4 as u64) << 32u64) | ((b5 as u64) << 40u64) | ((b6 as u64) << 48u64) | ((b7 as u64)
        << 56u64))
}

/// Appends the encoding of `x` in byte order `o`.
pub fn write_u16(out: &mut Vec<u8>, x: u16, o: ByteOrder)
    ensures
        final(out)@ == old(out)@ + enc16(x, o),
{
    let lo = x as u8;
    let hi = (x >> 8u16) as u8;
    if o == ByteOrder::BigEndian {
        out.push(hi);
        out.push(lo);
    } else {
        out.push(lo);
        out.push(hi);
    }
    assert(final(out)@ =~= old(out)@ + enc16(x, o));
}

/// Appends the encoding of `x` in byte order `o`.
pub fn write_u32(out: &mut Vec<u8>, x: u32, o: ByteOrder)
    ensures
        final(out)@ == old(out)@ + enc32(x, o),
{
    let le: [u8; 4] = [x as u8, (x >> 8u32) as u8, (x >> 16u32) as u8, (x >> 24u32) as u8];
    write_ordered(out, &le, o);
    assert(le@ =~= le_bytes32(x));
}

/// Appends the encoding of `x` in byte order `o`.
pub fn write_u64(out: &mut Vec<u8>, x: u64, o: ByteOrder)
    ensures
        final(out)@ == old(out)@ + enc64(x, o),
{
    let le: [u8; 8] = [
        x as u8,
        (x >> 8u64) as u8,
        (x >> 16u64) as u8,
        (x >> 24u64) as u8,
        (x >> 32u64) as u8,
        (x >> 40u64) as u8,
        (x >> 48u64) as u8,
        (x >> 56u64) as u8,
    ];
    write_ordered(out, &le, o);
    assert(le@ =~= le_bytes64(x));
}

/// Appends `le`, given least significant first, in byte order `o`.
fn write_ordered(out: &mut Vec<u8>, le: &[u8], o: ByteOrder)
    ensures
        o == ByteOrder::BigEndian ==> final(out)@ == old(out)@ + le@.reverse(),
        o != ByteOrder::BigEndian ==> final(out)@ == old(out)@ + le@,
{
    let n = le.len();
    let big = o == ByteOrder::BigEndian;
    let mut i: usize = 0;
    while i < n
        invariant
            n == le@.len(),
            i <= n,
            big == (o == ByteOrder::BigEndian),
            big ==> out@ =~= old(out)@ + le@.reverse().subrange(0, i as int),
            !big ==> out@ =~= old(out)@ + le@.subrange(0, i as int),
        decreases n - i,
    {
        if big {
            out.push(le[n - 1 - i]);
        } else {
            out.push(le[i]);
        }
        i = i + 1;
    }
    assert(le@.reverse().subrange(0, n as int) =~= le@.reverse());
    assert(le@.subrange(0, n as int) =~= le@);
}

/// Two bytes at `off` that encode `x` in a set byte order decode to `x`.
pub proof fn lemma_dec16_enc16(s: Seq<u8>, off: int, x: u16, o: ByteOrder)
    requires
        o != ByteOrder::DataNone,
        0 <= off,
        off + 2 <= s.len(),
        s.subrange(off, off + 2) == enc16(x, o),
    ensures
        dec16(s, off, o) == x,
{
    assert(s[off] == s.subrange(off, off + 2)[0]);
    assert(s[off + 1] == s.subrange(off, off + 2)[1]);
    assert(le16(x as u8, (x >> 8u16) as u8) == x) by {
        assert(((x as u8) as u16) | ((((x >> 8u16) as u8) as u16) << 8u16) == x) by (bit_vector);
    }
}

/// Four bytes at `off` that encode `x` in a set byte order decode to `x`.
pub proof fn lemma_dec32_enc32(s: Seq<u8>, off: int, x: u32, o: ByteOrder)
    requires
        o != ByteOrder::DataNone,
        0 <= off,
        off + 4 <= s.len(),
        s.subrange(off, off + 4) == enc32(x, o),
    ensures
        dec32(s, off, o) == x,
{
    let w = s.subrange(off, off + 4);
    assert(s[off] == w[0] && s[off + 1] == w[1] && s[off + 2] == w[2] && s[off + 3] == w[3]);
    assert(le32(x as u8, (x >> 8u32) as u8, (x >> 16u32) as u8, (x >> 24u32) as u8) == x) by {
        assert(((x as u8) as u32) | ((((x >> 8u32) as u8) as u32) << 8u32) | ((((x >> 16u32) as u8) as u32)
            << 16u32) | ((((x >> 24u32) as u8) as u32) << 24u32) == x) by (bit_vector);
    }
}

/// Eight bytes at `off` that encode `x` in a set byte order decode to `x`.
pub proof fn lemma_dec64_enc64(s: Seq<u8>, off: int, x: u64, o: ByteOrder)
    requires
        o != ByteOrder::DataNone,
        0 <= off,
        off + 8 <= s.len(),
        s.subrange(off, off + 8) == enc64(x, o),
    ensures
        dec64(s, off, o) == x,
{
    let w = s.subrange(off, off + 8);
    assert(s[off] == w[0] && s[off + 1] == w[1] && s[off + 2] == w[2] && s[off + 3] == w[3]);
    assert(s[off + 4] == w[4] && s[off + 5] == w[5] && s[off + 6] == w[6] && s[off + 7] == w[7]);
    assert(le64(
        x as u8,
        (x >> 8u64) as u8,
        (x >> 16u64) as u8,
        (x >> 24u64) as u8,
        (x >> 32u64) as u8,
        (x >> 40u64) as u8,
        (x >> 48u64) as u8,
        (x >> 56u64) as u8,
    ) == x) by {
        assert(((x as u8) as u64) | ((((x >> 8u64) as u8) as u64) << 8u64) | ((((x >> 16u64) as u8) as u64)
            << 16u64) | ((((x >> 24u64) as u8) as u64) << 24u64) | ((((x >> 32u64) as u8) as u64)
            << 32u64) | ((((x >> 40u64) as u8) as u64) << 40u64) | ((((x >> 48u64) as u8) as u64)
            << 48u64) | ((((x >> 56u64) as u8) as u64) << 56u64) == x) by (bit_vector);
    }
}

} // verus!
