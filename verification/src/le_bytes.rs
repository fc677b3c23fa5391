//! Little-endian integers in byte buffers: the field encoding of the VFNT
//! font and VRUN page formats.
use vstd::prelude::*;

verus! {

/// The unsigned 16-bit value stored little-endian at `off`.
pub open spec fn le_u16(s: Seq<u8>, off: int) -> int {
    s[off] + 256 * s[off + 1]
}

/// The signed 16-bit value stored little-endian (two's complement) at `off`.
pub open spec fn le_i16(s: Seq<u8>, off: int) -> int {
    if le_u16(s, off) >= 32768 {
        le_u16(s, off) - 65536
    } else {
        le_u16(s, off)
    }
}

/// The unsigned 32-bit value stored little-endian at `off`.
pub open spec fn le_u32(s: Seq<u8>, off: int) -> int {
    s[off] + 256 * s[off + 1] + 65536 * s[off + 2] + 16777216 * s[off + 3]
}

/// The two little-endian bytes of `v`.
pub open spec fn u16_bytes(v: int) -> Seq<u8> {
    seq![(v % 256) as u8, (v / 256) as u8]
}

/// The two little-endian bytes of the signed `v`.
pub open spec fn i16_bytes(v: int) -> Seq<u8> {
    u16_bytes(if v < 0 { v + 65536 } else { v })
}

/// The four little-endian bytes of `v`.
pub open spec fn u32_bytes(v: int) -> Seq<u8> {
    seq![(v % 256) as u8, ((v / 256) % 256) as u8, ((v / 65536) % 256) as u8, (v / 16777216) as u8]
}

/// Reading back what was written: the bytes of a value decode to it.
pub proof fn lemma_le_roundtrip(s: Seq<u8>, off: int, v: int, kind: int)
    requires
        0 <= off,
        kind == 16 ==> 0 <= v < 65536 && off + 2 <= s.len() && s.subrange(off, off + 2) == u16_bytes(v),
        kind == -16 ==> -32768 <= v < 32768 && off + 2 <= s.len() && s.subrange(off, off + 2) == i16_bytes(v),
        kind == 32 ==> 0 <= v < 4294967296 && off + 4 <= s.len() && s.subrange(off, off + 4) == u32_bytes(v),
    ensures
        kind == 16 ==> le_u16(s, off) == v,
        kind == -16 ==> le_i16(s, off) == v,
        kind == 32 ==> le_u32(s, off) == v,
{
    if kind == 16 {
        assert(s[off] == u16_bytes(v)[0]);
        assert(s[off + 1] == u16_bytes(v)[1]);
    } else if kind == -16 {
        let u = if v < 0 { v + 65536 } else { v };
        assert(s[off] == u16_bytes(u)[0]);
        assert(s[off + 1] == u16_bytes(u)[1]);
    } else if kind == 32 {
        assert(s[off] == u32_bytes(v)[0]);
        assert(s[off + 1] == u32_bytes(v)[1]);
        assert(s[off + 2] == u32_bytes(v)[2]);
        assert(s[off + 3] == u32_bytes(v)[3]);
    }
}

/// The 16-bit value at `off`, if two bytes are there.
pub fn get_u16(data: &[u8], off: usize) -> (r: Option<u16>)
    ensures
        r is Some <==> off + 2 <= data@.len(),
        r matches Some(v) ==> v == le_u16(data@, off as int),
{
    if off > data.len() || data.len() - off < 2 {
        return None;
    }
    Some(data[off] as u16 + 256 * (data[off + 1] as u16))
}

/// The signed 16-bit value at `off`, if two bytes are there.
pub fn get_i16(data: &[u8], off: usize) -> (r: Option<i16>)
    ensures
        r is Some <==> off + 2 <= data@.len(),
        r matches Some(v) ==> v == le_i16(data@, off as int),
{
    match get_u16(data, off) {
        Some(v) => if v >= 32768 {
            Some((v as i32 - 65536) as i16)
        } else {
            Some(v as i16)
        },
        None => None,
    }
}

/// The 32-bit value at `off`, if four bytes are there.
pub fn get_u32(data: &[u8], off: usize) -> (r: Option<u32>)
    ensures
        r is Some <==> off + 4 <= data@.len(),
        r matches Some(v) ==> v == le_u32(data@, off as int),
{
    if off > data.len() || data.len() - off < 4 {
        return None;
    }
    Some(
        data[off] as u32 + 256 * (data[off + 1] as u32) + 65536 * (data[off + 2] as u32) + 16777216 * (
        data[off + 3] as u32),
    )
}

/// Appends `value` as two little-endian bytes.
pub fn put_u16(out: &mut Vec<u8>, value: u16)
    ensures
        final(out)@ == old(out)@ + u16_bytes(value as int),
{
    out.push((value % 256) as u8);
    out.push((value / 256) as u8);
    assert(final(out)@ =~= old(out)@ + u16_bytes(value as int));
}

/// Appends the signed `value` as two little-endian bytes.
pub fn put_i16(out: &mut Vec<u8>, value: i16)
    ensures
        final(out)@ == old(out)@ + i16_bytes(value as int),
{
    let u: u16 = if value < 0 { (value as i32 + 65536) as u16 } else { value as u16 };
    put_u16(out, u);
}

/// Appends `value` as four little-endian bytes.
pub fn put_u32(out: &mut Vec<u8>, value: u32)
    ensures
        final(out)@ == old(out)@ + u32_bytes(value as int),
{
    out.push((value % 256) as u8);
    out.push(((value / 256) % 256) as u8);
    out.push(((value / 65536) % 256) as u8);
    out.push((value / 16777216) as u8);
    assert(final(out)@ =~= old(out)@ + u32_bytes(value as int));
}

} // verus!
