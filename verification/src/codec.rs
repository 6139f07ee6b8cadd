use vstd::prelude::*;

verus! {

/// The unsigned 32-bit value that four little-endian bytes denote.
pub open spec fn u32_of_le(s: Seq<u8>) -> u32
    recommends
        s.len() == 4,
{
    (s[0] as u32) | ((s[1] as u32) << 8) | ((s[2] as u32) << 16) | ((s[3] as u32) << 24)
}

/// The four little-endian bytes of an unsigned 32-bit value.
pub open spec fn le_of_u32(v: u32) -> Seq<u8> {
    seq![
        (v & 0xff) as u8,
        ((v >> 8) & 0xff) as u8,
        ((v >> 16) & 0xff) as u8,
        ((v >> 24) & 0xff) as u8,
    ]
}

/// The unsigned 64-bit value that eight little-endian bytes denote.
pub open spec fn u64_of_le(s: Seq<u8>) -> u64
    recommends
        s.len() == 8,
{
    (s[0] as u64) | ((s[1] as u64) << 8) | ((s[2] as u64) << 16) | ((s[3] as u64) << 24)
        | ((s[4] as u64) << 32) | ((s[5] as u64) << 40) | ((s[6] as u64) << 48)
        | ((s[7] as u64) << 56)
}

/// The eight little-endian bytes of an unsigned 64-bit value.
pub open spec fn le_of_u64(v: u64) -> Seq<u8> {
    seq![
        (v & 0xff) as u8,
        ((v >> 8) & 0xff) as u8,
        ((v >> 16) & 0xff) as u8,
        ((v >> 24) & 0xff) as u8,
        ((v >> 32) & 0xff) as u8,
        ((v >> 40) & 0xff) as u8,
        ((v >> 48) & 0xff) as u8,
        ((v >> 56) & 0xff) as u8,
    ]
}

/// Reading back the four bytes written for a value yields that value.
pub proof fn lemma_u32_le_round_trip(v: u32)
    ensures
        u32_of_le(le_of_u32(v)) == v,
{
    assert(((v & 0xff) as u8 as u32) | (((v >> 8) & 0xff) as u8 as u32) << 8
        | (((v >> 16) & 0xff) as u8 as u32) << 16 | (((v >> 24) & 0xff) as u8 as u32) << 24
        == v) by (bit_vector);
}

/// Reading back the eight bytes written for a value yields that value.
pub proof fn lemma_u64_le_round_trip(v: u64)
    ensures
        u64_of_le(le_of_u64(v)) == v,
{
    assert(((v & 0xff) as u8 as u64) | (((v >> 8) & 0xff) as u8 as u64) << 8
        | (((v >> 16) & 0xff) as u8 as u64) << 16 | (((v >> 24) & 0xff) as u8 as u64) << 24
        | (((v >> 32) & 0xff) as u8 as u64) << 32 | (((v >> 40) & 0xff) as u8 as u64) << 40
        | (((v >> 48) & 0xff) as u8 as u64) << 48 | (((v >> 56) & 0xff) as u8 as u64) << 56
        == v) by (bit_vector);
}

/// Reads the unsigned 32-bit value stored little-endian at `offset`.
pub fn read_u32_le(data: &[u8], offset: usize) -> (r: u32)
    requires
        offset + 4 <= data@.len(),
    ensures
        r == u32_of_le(data@.subrange(offset as int, offset as int + 4)),
{
    let r: u32 = (data[offset] as u32) | ((data[offset + 1] as u32) << 8)
        | ((data[offset + 2] as u32) << 16) | ((data[offset + 3] as u32) << 24);
    proof {
        let s = data@.subrange(offset as int, offset as int + 4);
        assert(s[0] == data@[offset as int]);
        assert(s[1] == data@[offset as int + 1]);
        assert(s[2] == data@[offset as int + 2]);
        assert(s[3] == data@[offset as int + 3]);
    }
    r
}

/// Reads the unsigned 64-bit value stored little-endian at `offset`.
pub fn read_u64_le(data: &[u8], offset: usize) -> (r: u64)
    requires
        offset + 8 <= data@.len(),
    ensures
        r == u64_of_le(data@.subrange(offset as int, offset as int + 8)),
{
    let r: u64 = (data[offset] as u64) | ((data[offset + 1] as u64) << 8)
        | ((data[offset + 2] as u64) << 16) | ((data[offset + 3] as u64) << 24)
        | ((data[offset + 4] as u64) << 32) | ((data[offset + 5] as u64) << 40)
        | ((data[offset + 6] as u64) << 48) | ((data[offset + 7] as u64) << 56);
    proof {
        let s = data@.subrange(offset as int, offset as int + 8);
        assert(s[0] == data@[offset as int]);
        assert(s[1] == data@[offset as int + 1]);
        assert(s[2] == data@[offset as int + 2]);
        assert(s[3] == data@[offset as int + 3]);
        assert(s[4] == data@[offset as int + 4]);
        assert(s[5] == data@[offset as int + 5]);
        assert(s[6] == data@[offset as int + 6]);
        assert(s[7] == data@[offset as int + 7]);
    }
    r
}

/// Overwrites the four bytes at `offset` with the little-endian form of `v`,
/// leaving every other byte of the buffer as it was.
pub fn write_u32_le(buf: &mut Vec<u8>, offset: usize, v: u32)
    requires
        offset + 4 <= old(buf)@.len(),
    ensures
        final(buf)@.len() == old(buf)@.len(),
        final(buf)@.subrange(offset as int, offset as int + 4) == le_of_u32(v),
        forall|i: int|
            0 <= i < old(buf)@.len() && !(offset <= i < offset + 4) ==> final(buf)@[i] == old(
                buf,
            )@[i],
{
    proof {
        assert(v & 0xff < 256 && (v >> 8) & 0xff < 256 && (v >> 16) & 0xff < 256 && (v >> 24)
            & 0xff < 256) by (bit_vector);
    }
    let n: usize = buf.len();
    assert(offset + 4 <= n);
    buf[offset] = (v & 0xff) as u8;
    buf[offset + 1] = ((v >> 8) & 0xff) as u8;
    buf[offset + 2] = ((v >> 16) & 0xff) as u8;
    buf[offset + 3] = ((v >> 24) & 0xff) as u8;
    proof {
        assert(buf@.subrange(offset as int, offset as int + 4) =~= le_of_u32(v));
    }
}

/// Overwrites the eight bytes at `offset` with the little-endian form of `v`,
/// leaving every other byte of the buffer as it was.
pub fn write_u64_le(buf: &mut Vec<u8>, offset: usize, v: u64)
    requires
        offset + 8 <= old(buf)@.len(),
    ensures
        final(buf)@.len() == old(buf)@.len(),
        final(buf)@.subrange(offset as int, offset as int + 8) == le_of_u64(v),
        forall|k: int| 0 <= k < 8 ==> final(buf)@[offset + k] == le_of_u64(v)[k],
        forall|i: int|
            0 <= i < old(buf)@.len() && !(offset <= i < offset + 8) ==> final(buf)@[i] == old(
                buf,
            )@[i],
{
    proof {
        assert(v & 0xff < 256 && (v >> 8) & 0xff < 256 && (v >> 16) & 0xff < 256 && (v >> 24)
            & 0xff < 256 && (v >> 32) & 0xff < 256 && (v >> 40) & 0xff < 256 && (v >> 48) & 0xff
            < 256 && (v >> 56) & 0xff < 256) by (bit_vector);
    }
    let n: usize = buf.len();
    assert(offset + 8 <= n);
    buf[offset] = (v & 0xff) as u8;
    buf[offset + 1] = ((v >> 8) & 0xff) as u8;
    buf[offset + 2] = ((v >> 16) & 0xff) as u8;
    buf[offset + 3] = ((v >> 24) & 0xff) as u8;
    buf[offset + 4] = ((v >> 32) & 0xff) as u8;
    buf[offset + 5] = ((v >> 40) & 0xff) as u8;
    buf[offset + 6] = ((v >> 48) & 0xff) as u8;
    buf[offset + 7] = ((v >> 56) & 0xff) as u8;
    proof {
        assert(buf@.subrange(offset as int, offset as int + 8) =~= le_of_u64(v));
        assert forall|k: int| 0 <= k < 8 implies buf@[offset + k] == le_of_u64(v)[k] by {
            assert(buf@.subrange(offset as int, offset as int + 8)[k] == buf@[offset + k]);
        }
    }
}

} // verus!
