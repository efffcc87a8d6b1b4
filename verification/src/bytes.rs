use vstd::prelude::*;

verus! {

/// The eight bytes of `x` in big-endian order; byte `i` holds the bits
/// `56 - 8*i` through `63 - 8*i`, written with division and remainder.
pub open spec fn u64_be_bytes(x: u64) -> Seq<u8> {
    seq![
        ((x / 0x100000000000000) % 0x100) as u8,
        ((x / 0x1000000000000) % 0x100) as u8,
        ((x / 0x10000000000) % 0x100) as u8,
        ((x / 0x100000000) % 0x100) as u8,
        ((x / 0x1000000) % 0x100) as u8,
        ((x / 0x10000) % 0x100) as u8,
        ((x / 0x100) % 0x100) as u8,
        (x % 0x100) as u8,
    ]
}

/// Big-endian encoding of a 64-bit integer.
pub fn u64_to_be_bytes(x: u64) -> (r: Vec<u8>)
    ensures
        r@ == u64_be_bytes(x),
{
    let mut r: Vec<u8> = Vec::new();
    r.push(((x / 0x100000000000000) % 0x100) as u8);
    r.push(((x / 0x1000000000000) % 0x100) as u8);
    r.push(((x / 0x10000000000) % 0x100) as u8);
    r.push(((x / 0x100000000) % 0x100) as u8);
    r.push(((x / 0x1000000) % 0x100) as u8);
    r.push(((x / 0x10000) % 0x100) as u8);
    r.push(((x / 0x100) % 0x100) as u8);
    r.push((x % 0x100) as u8);
    proof {
        assert(r@ =~= u64_be_bytes(x));
    }
    r
}

/// Appends every byte of `src` to `dst`.
pub fn extend_bytes(dst: &mut Vec<u8>, src: &Vec<u8>)
    ensures
        final(dst)@ == old(dst)@ + src@,
{
    let mut i: usize = 0;
    while i < src.len()
        invariant
            0 <= i <= src@.len(),
            dst@ == old(dst)@ + src@.take(i as int),
        decreases src@.len() - i,
    {
        dst.push(src[i]);
        proof {
            assert(old(dst)@ + src@.take(i + 1) =~= (old(dst)@ + src@.take(i as int)).push(
                src@[i as int],
            ));
        }
        i = i + 1;
    }
    proof {
        assert(src@.take(src@.len() as int) =~= src@);
    }
}

/// Appends every byte of the slice `src` to `dst`.
pub fn extend_byte_slice(dst: &mut Vec<u8>, src: &[u8])
    ensures
        final(dst)@ == old(dst)@ + src@,
{
    let mut i: usize = 0;
    while i < src.len()
        invariant
            0 <= i <= src@.len(),
            dst@ == old(dst)@ + src@.take(i as int),
        decreases src@.len() - i,
    {
        dst.push(src[i]);
        proof {
            assert(old(dst)@ + src@.take(i + 1) =~= (old(dst)@ + src@.take(i as int)).push(
                src@[i as int],
            ));
        }
        i = i + 1;
    }
    proof {
        assert(src@.take(src@.len() as int) =~= src@);
    }
}

} // verus!
