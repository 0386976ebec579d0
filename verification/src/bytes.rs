//! Big-endian byte layouts of integers and appending bytes to a buffer.
use vstd::prelude::*;

verus! {

/// The two bytes of `x`, most significant first.
pub open spec fn be_u16(x: u16) -> Seq<u8> {
    seq![(x / 0x100) as u8, (x % 0x100) as u8]
}

/// The four bytes of `x`, most significant first.
pub open spec fn be_u32(x: u32) -> Seq<u8> {
    seq![
        (x / 0x100_0000) as u8,
        ((x / 0x1_0000) % 0x100) as u8,
        ((x / 0x100) % 0x100) as u8,
        (x % 0x100) as u8,
    ]
}

/// The value of two bytes read most significant first.
pub open spec fn read_be_u16(hi: u8, lo: u8) -> int {
    hi * 0x100 + lo
}

/// Appends the two bytes of `x`, most significant first.
pub fn push_be_u16(data: &mut Vec<u8>, x: u16)
    ensures
        final(data)@ == old(data)@ + be_u16(x),
{
    data.push((x / 0x100) as u8);
    data.push((x % 0x100) as u8);
    assert(final(data)@ =~= old(data)@ + be_u16(x));
}

/// Appends the four bytes of `x`, most significant first.
pub fn push_be_u32(data: &mut Vec<u8>, x: u32)
    ensures
        final(data)@ == old(data)@ + be_u32(x),
{
    data.push((x / 0x100_0000) as u8);
    data.push(((x / 0x1_0000) % 0x100) as u8);
    data.push(((x / 0x100) % 0x100) as u8);
    data.push((x % 0x100) as u8);
    assert(final(data)@ =~= old(data)@ + be_u32(x));
}

/// Appends every byte of `bytes`, in order.
pub fn push_all(data: &mut Vec<u8>, bytes: &[u8])
    ensures
        final(data)@ == old(data)@ + bytes@,
{
    let ghost start = data@;
    let n = bytes.len();
    let mut i: usize = 0;
    while i < n
        invariant
            n == bytes@.len(),
            i <= n,
            data@ == start + bytes@.subrange(0, i as int),
        decreases n - i,
    {
        data.push(bytes[i]);
        i = i + 1;
        assert(data@ =~= start + bytes@.subrange(0, i as int));
    }
    assert(bytes@.subrange(0, n as int) =~= bytes@);
}

} // verus!
