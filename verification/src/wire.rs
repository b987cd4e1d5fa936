//! The GGML header stores every hyperparameter as a 32-bit two's-complement
//! integer in little-endian byte order.
use vstd::prelude::*;

verus! {

/// The unsigned value of the four little-endian bytes `b[0..4]`.
pub open spec fn u32_from_le(b: Seq<u8>) -> int
    recommends
        b.len() >= 4,
{
    b[0] as int + 256 * (b[1] as int) + 65536 * (b[2] as int) + 16777216 * (b[3] as int)
}

/// The signed value of a 32-bit pattern `u` read as two's complement.
pub open spec fn i32_from_bits(u: int) -> int {
    if u < 0x8000_0000 {
        u
    } else {
        u - 0x1_0000_0000
    }
}

/// The 32-bit pattern of `v` in two's complement.
pub open spec fn bits_of_i32(v: int) -> int {
    if v < 0 {
        v + 0x1_0000_0000
    } else {
        v
    }
}

/// The signed 32-bit integer stored little-endian in `b[0..4]`.
pub open spec fn i32_from_le(b: Seq<u8>) -> int
    recommends
        b.len() >= 4,
{
    i32_from_bits(u32_from_le(b))
}

/// The four little-endian bytes of the 32-bit pattern `u`.
pub open spec fn u32_to_le(u: int) -> Seq<u8> {
    seq![
        (u % 256) as u8,
        ((u / 256) % 256) as u8,
        ((u / 65536) % 256) as u8,
        ((u / 16777216) % 256) as u8,
    ]
}

/// The four little-endian bytes of `v` in two's complement.
pub open spec fn i32_to_le(v: int) -> Seq<u8> {
    u32_to_le(bits_of_i32(v))
}

proof fn lemma_digits(u: int)
    requires
        0 <= u < 0x1_0000_0000,
    ensures
        u == u % 256 + 256 * ((u / 256) % 256) + 65536 * ((u / 65536) % 256) + 16777216 * ((u / 16777216) % 256),
        0 <= u % 256 < 256,
        0 <= (u / 256) % 256 < 256,
        0 <= (u / 65536) % 256 < 256,
        0 <= (u / 16777216) % 256 < 256,
{
    assert(u == u % 256 + 256 * ((u / 256) % 256) + 65536 * ((u / 65536) % 256) + 16777216 * ((u / 16777216) % 256)) by (nonlinear_arith)
        requires
            0 <= u < 0x1_0000_0000,
    ;
}

/// Reading back the bytes of a 32-bit pattern gives the pattern.
pub proof fn lemma_u32_le_roundtrip(u: int)
    requires
        0 <= u < 0x1_0000_0000,
    ensures
        u32_to_le(u).len() == 4,
        u32_from_le(u32_to_le(u)) == u,
{
    lemma_digits(u);
}

/// Writing the pattern of four bytes gives back the bytes.
pub proof fn lemma_le_u32_roundtrip(b: Seq<u8>)
    requires
        b.len() == 4,
    ensures
        0 <= u32_from_le(b) < 0x1_0000_0000,
        u32_to_le(u32_from_le(b)) == b,
{
    let u = u32_from_le(b);
    assert(u % 256 == b[0] && (u / 256) % 256 == b[1] && (u / 65536) % 256 == b[2]
        && (u / 16777216) % 256 == b[3]) by (nonlinear_arith)
        requires
            u == b[0] as int + 256 * (b[1] as int) + 65536 * (b[2] as int) + 16777216 * (b[3] as int),
            0 <= b[0] < 256,
            0 <= b[1] < 256,
            0 <= b[2] < 256,
            0 <= b[3] < 256,
    ;
    assert(u32_to_le(u) =~= b);
}

/// Reading back the bytes written for a signed 32-bit integer gives the integer.
pub proof fn lemma_i32_le_roundtrip(v: int)
    requires
        i32::MIN <= v <= i32::MAX,
    ensures
        i32_to_le(v).len() == 4,
        i32_from_le(i32_to_le(v)) == v,
{
    lemma_u32_le_roundtrip(bits_of_i32(v));
}

/// Writing back the signed 32-bit integer read from four bytes gives the bytes.
pub proof fn lemma_le_i32_roundtrip(b: Seq<u8>)
    requires
        b.len() == 4,
    ensures
        i32::MIN <= i32_from_le(b) <= i32::MAX,
        i32_to_le(i32_from_le(b)) == b,
{
    lemma_le_u32_roundtrip(b);
}

/// Reads the signed 32-bit little-endian integer at `bytes[pos..pos + 4]`.
pub fn read_i32_le(bytes: &[u8], pos: usize) -> (v: i32)
    requires
        pos + 4 <= bytes@.len(),
    ensures
        v == i32_from_le(bytes@.subrange(pos as int, pos + 4)),
{
    let b0 = bytes[pos] as u32;
    let b1 = bytes[pos + 1] as u32;
    let b2 = bytes[pos + 2] as u32;
    let b3 = bytes[pos + 3] as u32;
    let u: u32 = b0 + b1 * 256 + b2 * 65536 + b3 * 16777216;
    if u < 0x8000_0000 {
        u as i32
    } else {
        let low: i32 = (u - 0x8000_0000) as i32;
        low - 0x7fff_ffff - 1
    }
}

/// Appends the four little-endian bytes of `v` to `out`.
pub fn write_i32_le(out: &mut Vec<u8>, v: i32)
    ensures
        final(out)@ == old(out)@ + i32_to_le(v as int),
{
    let u: u32 = if v < 0 {
        let shifted: i32 = v + 0x7fff_ffff + 1;
        shifted as u32 + 0x8000_0000
    } else {
        v as u32
    };
    let ghost start = out@;
    out.push((u % 256) as u8);
    out.push(((u / 256) % 256) as u8);
    out.push(((u / 65536) % 256) as u8);
    out.push(((u / 16777216) % 256) as u8);
    assert(out@ =~= start + i32_to_le(v as int));
}

} // verus!
