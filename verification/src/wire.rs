use crate::error::Error;
use vstd::prelude::*;

verus! {

/// The kinds of value that carry a length in front of their content.
#[derive(Debug, Clone, Copy, PartialEq, Eq, Structural)]
pub enum Kind {
    Bytes,
    String,
    List,
    Dictionary,
    Structure,
}

/// The class that the first byte of a value puts it in.
#[derive(Debug, Clone, Copy, PartialEq, Eq, Structural)]
pub enum Marker {
    /// An integer from -16 to 127 held in the marker itself.
    Tiny(i64),
    Null,
    False,
    True,
    /// Eight bytes of a float follow.
    Float,
    /// An integer of that many bytes follows: 1, 2, 4 or 8.
    Integer(u8),
    /// A value of the given kind. The second field is the width in bytes of the
    /// length that follows, or 0 where the third field holds the length.
    Sized(Kind, u8, u8),
    /// No class has this byte.
    Invalid,
}

/// Two bytes, most significant first, of a number below 2^16.
pub open spec fn be16(x: int) -> Seq<u8> {
    seq![((x / 0x100) % 0x100) as u8, (x % 0x100) as u8]
}

/// Four bytes, most significant first, of a number below 2^32.
pub open spec fn be32(x: int) -> Seq<u8> {
    seq![
        ((x / 0x100_0000) % 0x100) as u8,
        ((x / 0x1_0000) % 0x100) as u8,
        ((x / 0x100) % 0x100) as u8,
        (x % 0x100) as u8,
    ]
}

/// Eight bytes, most significant first, of a number below 2^64.
pub open spec fn be64(x: int) -> Seq<u8> {
    be32(x / 0x1_0000_0000) + be32(x % 0x1_0000_0000)
}

/// The number that the two bytes at `pos` spell, most significant first.
pub open spec fn from_be16(s: Seq<u8>, pos: int) -> int {
    s[pos] * 0x100 + s[pos + 1]
}

/// The number that the four bytes at `pos` spell, most significant first.
pub open spec fn from_be32(s: Seq<u8>, pos: int) -> int {
    from_be16(s, pos) * 0x1_0000 + from_be16(s, pos + 2)
}

/// The number that the eight bytes at `pos` spell, most significant first.
pub open spec fn from_be64(s: Seq<u8>, pos: int) -> int {
    from_be32(s, pos) * 0x1_0000_0000 + from_be32(s, pos + 4)
}

/// The two's complement of `i` in a word of `modulus` values.
pub open spec fn to_unsigned(i: int, modulus: int) -> int {
    if i >= 0 {
        i
    } else {
        i + modulus
    }
}

/// The signed number whose two's complement in a word of `modulus` values is `u`.
pub open spec fn to_signed(u: int, modulus: int) -> int {
    if 2 * u >= modulus {
        u - modulus
    } else {
        u
    }
}

/// An integer in the smallest of the five size classes that holds it.
pub open spec fn encode_integer(i: i64) -> Seq<u8> {
    if -16 <= i <= 127 {
        seq![to_unsigned(i as int, 0x100) as u8]
    } else if -128 <= i < -16 {
        seq![0xC8u8, to_unsigned(i as int, 0x100) as u8]
    } else if -0x8000 <= i <= 0x7FFF {
        seq![0xC9u8] + be16(to_unsigned(i as int, 0x1_0000))
    } else if -0x8000_0000 <= i <= 0x7FFF_FFFF {
        seq![0xCAu8] + be32(to_unsigned(i as int, 0x1_0000_0000))
    } else {
        seq![0xCBu8] + be64(to_unsigned(i as int, 0x1_0000_0000_0000_0000))
    }
}

/// The marker under which lengths up to 15 of this kind are written, added to the length.
pub open spec fn tiny_base(kind: Kind) -> int {
    match kind {
        Kind::Bytes => 0,
        Kind::String => 0x80,
        Kind::List => 0x90,
        Kind::Dictionary => 0xA0,
        Kind::Structure => 0xB0,
    }
}

/// The marker of this kind that is followed by a length of one byte. The marker
/// for two bytes is the next one, the marker for four bytes the one after.
pub open spec fn wide_base(kind: Kind) -> int {
    match kind {
        Kind::Bytes => 0xCC,
        Kind::String => 0xD0,
        Kind::List => 0xD4,
        Kind::Dictionary => 0xD8,
        Kind::Structure => 0xDC,
    }
}

/// The largest length that the format can write for this kind.
pub open spec fn max_size(kind: Kind) -> int {
    if kind is Structure {
        0xFFFF
    } else {
        0xFFFF_FFFF
    }
}

/// Marker and length of a value of this kind, in the smallest form that holds `n`.
pub open spec fn size_header(kind: Kind, n: int) -> Seq<u8> {
    if n <= 15 && !(kind is Bytes) {
        seq![(tiny_base(kind) + n) as u8]
    } else if n <= 0xFF {
        seq![wide_base(kind) as u8, n as u8]
    } else if n <= 0xFFFF {
        seq![(wide_base(kind) + 1) as u8] + be16(n)
    } else {
        seq![(wide_base(kind) + 2) as u8] + be32(n)
    }
}

/// The class of a first byte.
pub open spec fn classify(m: u8) -> Marker {
    if m <= 0x7F {
        Marker::Tiny(m as i64)
    } else if m <= 0x8F {
        Marker::Sized(Kind::String, 0, (m - 0x80) as u8)
    } else if m <= 0x9F {
        Marker::Sized(Kind::List, 0, (m - 0x90) as u8)
    } else if m <= 0xAF {
        Marker::Sized(Kind::Dictionary, 0, (m - 0xA0) as u8)
    } else if m <= 0xBF {
        Marker::Sized(Kind::Structure, 0, (m - 0xB0) as u8)
    } else if m == 0xC0 {
        Marker::Null
    } else if m == 0xC1 {
        Marker::Float
    } else if m == 0xC2 {
        Marker::False
    } else if m == 0xC3 {
        Marker::True
    } else if m == 0xC8 {
        Marker::Integer(1)
    } else if m == 0xC9 {
        Marker::Integer(2)
    } else if m == 0xCA {
        Marker::Integer(4)
    } else if m == 0xCB {
        Marker::Integer(8)
    } else if m == 0xCC {
        Marker::Sized(Kind::Bytes, 1, 0)
    } else if m == 0xCD {
        Marker::Sized(Kind::Bytes, 2, 0)
    } else if m == 0xCE {
        Marker::Sized(Kind::Bytes, 4, 0)
    } else if m == 0xD0 {
        Marker::Sized(Kind::String, 1, 0)
    } else if m == 0xD1 {
        Marker::Sized(Kind::String, 2, 0)
    } else if m == 0xD2 {
        Marker::Sized(Kind::String, 4, 0)
    } else if m == 0xD4 {
        Marker::Sized(Kind::List, 1, 0)
    } else if m == 0xD5 {
        Marker::Sized(Kind::List, 2, 0)
    } else if m == 0xD6 {
        Marker::Sized(Kind::List, 4, 0)
    } else if m == 0xD8 {
        Marker::Sized(Kind::Dictionary, 1, 0)
    } else if m == 0xD9 {
        Marker::Sized(Kind::Dictionary, 2, 0)
    } else if m == 0xDA {
        Marker::Sized(Kind::Dictionary, 4, 0)
    } else if m == 0xDC {
        Marker::Sized(Kind::Structure, 1, 0)
    } else if m == 0xDD {
        Marker::Sized(Kind::Structure, 2, 0)
    } else if m >= 0xF0 {
        Marker::Tiny((m - 0x100) as i64)
    } else {
        Marker::Invalid
    }
}

/// The length of a sized value and the position of its content: the length is
/// `tiny` where `width` is 0, else it is read from `width` bytes at `pos`.
pub open spec fn read_size(s: Seq<u8>, pos: int, width: u8, tiny: u8) -> Result<(int, int), Error> {
    if width == 0 {
        Ok((tiny as int, pos))
    } else if pos + width > s.len() {
        Err(Error::Truncated)
    } else if width == 1 {
        Ok((s[pos] as int, pos + 1))
    } else if width == 2 {
        Ok((from_be16(s, pos), pos + 2))
    } else {
        Ok((from_be32(s, pos), pos + 4))
    }
}

/// The integer that `width` bytes at `pos` hold in two's complement, and the position behind it.
pub open spec fn read_integer(s: Seq<u8>, pos: int, width: u8) -> Result<(i64, int), Error> {
    if pos + width > s.len() {
        Err(Error::Truncated)
    } else if width == 1 {
        Ok((to_signed(s[pos] as int, 0x100) as i64, pos + 1))
    } else if width == 2 {
        Ok((to_signed(from_be16(s, pos), 0x1_0000) as i64, pos + 2))
    } else if width == 4 {
        Ok((to_signed(from_be32(s, pos), 0x1_0000_0000) as i64, pos + 4))
    } else {
        Ok((to_signed(from_be64(s, pos), 0x1_0000_0000_0000_0000) as i64, pos + 8))
    }
}

/// Classifies a first byte.
pub fn classify_marker(m: u8) -> (marker: Marker)
    ensures
        marker == classify(m),
{
    if m <= 0x7F {
        Marker::Tiny(m as i64)
    } else if m <= 0x8F {
        Marker::Sized(Kind::String, 0, m - 0x80)
    } else if m <= 0x9F {
        Marker::Sized(Kind::List, 0, m - 0x90)
    } else if m <= 0xAF {
        Marker::Sized(Kind::Dictionary, 0, m - 0xA0)
    } else if m <= 0xBF {
        Marker::Sized(Kind::Structure, 0, m - 0xB0)
    } else if m >= 0xF0 {
        Marker::Tiny(m as i64 - 0x100)
    } else {
        match m {
            0xC0 => Marker::Null,
            0xC1 => Marker::Float,
            0xC2 => Marker::False,
            0xC3 => Marker::True,
            0xC8 => Marker::Integer(1),
            0xC9 => Marker::Integer(2),
            0xCA => Marker::Integer(4),
            0xCB => Marker::Integer(8),
            0xCC => Marker::Sized(Kind::Bytes, 1, 0),
            0xCD => Marker::Sized(Kind::Bytes, 2, 0),
            0xCE => Marker::Sized(Kind::Bytes, 4, 0),
            0xD0 => Marker::Sized(Kind::String, 1, 0),
            0xD1 => Marker::Sized(Kind::String, 2, 0),
            0xD2 => Marker::Sized(Kind::String, 4, 0),
            0xD4 => Marker::Sized(Kind::List, 1, 0),
            0xD5 => Marker::Sized(Kind::List, 2, 0),
            0xD6 => Marker::Sized(Kind::List, 4, 0),
            0xD8 => Marker::Sized(Kind::Dictionary, 1, 0),
            0xD9 => Marker::Sized(Kind::Dictionary, 2, 0),
            0xDA => Marker::Sized(Kind::Dictionary, 4, 0),
            0xDC => Marker::Sized(Kind::Structure, 1, 0),
            0xDD => Marker::Sized(Kind::Structure, 2, 0),
            _ => Marker::Invalid,
        }
    }
}

/// Appends the two bytes of `x`, most significant first.
pub fn write_be16(x: u16, out: &mut Vec<u8>)
    ensures
        final(out)@ == old(out)@ + be16(x as int),
{
    out.push((x / 0x100) as u8);
    out.push((x % 0x100) as u8);
    assert(out@ =~= old(out)@ + be16(x as int));
}

/// Appends the four bytes of `x`, most significant first.
pub fn write_be32(x: u32, out: &mut Vec<u8>)
    ensures
        final(out)@ == old(out)@ + be32(x as int),
{
    out.push((x / 0x100_0000) as u8);
    out.push(((x / 0x1_0000) % 0x100) as u8);
    out.push(((x / 0x100) % 0x100) as u8);
    out.push((x % 0x100) as u8);
    assert(out@ =~= old(out)@ + be32(x as int));
}

/// Appends the eight bytes of `x`, most significant first.
pub fn write_be64(x: u64, out: &mut Vec<u8>)
    ensures
        final(out)@ == old(out)@ + be64(x as int),
{
    let high: u32 = (x / 0x1_0000_0000) as u32;
    let low: u32 = (x % 0x1_0000_0000) as u32;
    write_be32(high, out);
    write_be32(low, out);
    assert(out@ =~= old(out)@ + be64(x as int));
}

/// Appends an integer in the smallest size class that holds it.
pub fn write_integer(i: i64, out: &mut Vec<u8>)
    ensures
        final(out)@ == old(out)@ + encode_integer(i),
{
    if -16 <= i && i <= 127 {
        let b: u8 = if i >= 0 {
            i as u8
        } else {
            (i + 0x100) as u8
        };
        out.push(b);
    } else if -128 <= i && i < -16 {
        out.push(0xC8);
        out.push((i + 0x100) as u8);
    } else if -0x8000 <= i && i <= 0x7FFF {
        out.push(0xC9);
        let u: u16 = if i >= 0 {
            i as u16
        } else {
            (i + 0x1_0000) as u16
        };
        write_be16(u, out);
    } else if -0x8000_0000 <= i && i <= 0x7FFF_FFFF {
        out.push(0xCA);
        let u: u32 = if i >= 0 {
            i as u32
        } else {
            (i + 0x1_0000_0000) as u32
        };
        write_be32(u, out);
    } else {
        out.push(0xCB);
        let u: u64 = if i >= 0 {
            i as u64
        } else {
            u64::MAX - ((-(i + 1)) as u64)
        };
        write_be64(u, out);
    }
    assert(out@ =~= old(out)@ + encode_integer(i));
}

/// Appends marker and length of a value of this kind, in the smallest form
/// that holds `n`. Fails, and appends nothing, where no form holds `n`.
pub fn write_size(kind: Kind, n: usize, out: &mut Vec<u8>) -> (r: Result<(), Error>)
    ensures
        n <= max_size(kind) ==> r is Ok && final(out)@ == old(out)@ + size_header(kind, n as int),
        n > max_size(kind) ==> r == Err::<(), Error>(Error::ValueTooLarge) && final(out)@ == old(
            out,
        )@,
{
    let (tiny, wide): (u8, u8) = match kind {
        Kind::Bytes => (0, 0xCC),
        Kind::String => (0x80, 0xD0),
        Kind::List => (0x90, 0xD4),
        Kind::Dictionary => (0xA0, 0xD8),
        Kind::Structure => (0xB0, 0xDC),
    };
    let is_bytes: bool = match kind {
        Kind::Bytes => true,
        _ => false,
    };
    let is_structure: bool = match kind {
        Kind::Structure => true,
        _ => false,
    };
    if n <= 15 && !is_bytes {
        out.push(tiny + n as u8);
    } else if n <= 0xFF {
        out.push(wide);
        out.push(n as u8);
    } else if n <= 0xFFFF {
        out.push(wide + 1);
        write_be16(n as u16, out);
    } else if n <= 0xFFFF_FFFF && !is_structure {
        out.push(wide + 2);
        write_be32(n as u32, out);
    } else {
        return Err(Error::ValueTooLarge);
    }
    assert(out@ =~= old(out)@ + size_header(kind, n as int));
    Ok(())
}

/// Reads the two bytes at `pos`, most significant first.
pub fn read_be16(s: &[u8], pos: usize) -> (x: u16)
    requires
        pos + 2 <= s@.len(),
    ensures
        x == from_be16(s@, pos as int),
{
    let high: u16 = s[pos] as u16;
    let low: u16 = s[pos + 1] as u16;
    high * 0x100 + low
}

/// Reads the four bytes at `pos`, most significant first.
pub fn read_be32(s: &[u8], pos: usize) -> (x: u32)
    requires
        pos + 4 <= s@.len(),
    ensures
        x == from_be32(s@, pos as int),
{
    proof {
        assert(s@.len() == vstd::slice::spec_slice_len(s));
    }
    let high: u32 = read_be16(s, pos) as u32;
    let low: u32 = read_be16(s, pos + 2) as u32;
    high * 0x1_0000 + low
}

/// Reads the eight bytes at `pos`, most significant first.
pub fn read_be64(s: &[u8], pos: usize) -> (x: u64)
    requires
        pos + 8 <= s@.len(),
    ensures
        x == from_be64(s@, pos as int),
{
    proof {
        assert(s@.len() == vstd::slice::spec_slice_len(s));
    }
    let high: u64 = read_be32(s, pos) as u64;
    let low: u64 = read_be32(s, pos + 4) as u64;
    high * 0x1_0000_0000 + low
}

/// Reads the length of a sized value whose marker stands just before `pos`.
pub fn read_size_at(s: &[u8], pos: usize, width: u8, tiny: u8) -> (r: Result<(usize, usize), Error>)
    requires
        pos <= s@.len(),
        width == 0 || width == 1 || width == 2 || width == 4,
    ensures
        match read_size(s@, pos as int, width, tiny) {
            Ok((n, p)) => r == Ok::<(usize, usize), Error>((n as usize, p as usize)) && 0 <= n
                <= 0xFFFF_FFFF && pos <= p <= s@.len(),
            Err(e) => r == Err::<(usize, usize), Error>(e),
        },
{
    if width == 0 {
        Ok((tiny as usize, pos))
    } else if s.len() - pos < width as usize {
        Err(Error::Truncated)
    } else if width == 1 {
        Ok((s[pos] as usize, pos + 1))
    } else if width == 2 {
        Ok((read_be16(s, pos) as usize, pos + 2))
    } else {
        Ok((read_be32(s, pos) as usize, pos + 4))
    }
}

/// Reads an integer of `width` bytes in two's complement at `pos`.
pub fn read_integer_at(s: &[u8], pos: usize, width: u8) -> (r: Result<(i64, usize), Error>)
    requires
        pos <= s@.len(),
        width == 1 || width == 2 || width == 4 || width == 8,
    ensures
        match read_integer(s@, pos as int, width) {
            Ok((i, p)) => r == Ok::<(i64, usize), Error>((i, p as usize)) && pos < p <= s@.len(),
            Err(e) => r == Err::<(i64, usize), Error>(e),
        },
{
    if s.len() - pos < width as usize {
        Err(Error::Truncated)
    } else if width == 1 {
        let u: i64 = s[pos] as i64;
        let i: i64 = if u >= 0x80 {
            u - 0x100
        } else {
            u
        };
        Ok((i, pos + 1))
    } else if width == 2 {
        let u: i64 = read_be16(s, pos) as i64;
        let i: i64 = if u >= 0x8000 {
            u - 0x1_0000
        } else {
            u
        };
        Ok((i, pos + 2))
    } else if width == 4 {
        let u: i64 = read_be32(s, pos) as i64;
        let i: i64 = if u >= 0x8000_0000 {
            u - 0x1_0000_0000
        } else {
            u
        };
        Ok((i, pos + 4))
    } else {
        let u: u64 = read_be64(s, pos);
        let i: i64 = if u >= 0x8000_0000_0000_0000 {
            -((u64::MAX - u) as i64) - 1
        } else {
            u as i64
        };
        Ok((i, pos + 8))
    }
}

} // verus!
