use vstd::prelude::*;

verus! {

/// The eight little-endian bytes of `v`.
pub open spec fn u64_le(v: u64) -> Seq<u8> {
    Seq::new(8, |i: int| (v >> ((8 * i) as u64)) as u8)
}

/// A byte string prefixed by its length.
pub open spec fn field(b: Seq<u8>) -> Seq<u8> {
    u64_le(b.len() as u64) + b
}

/// Appends the little-endian bytes of `v`.
pub fn push_u64(out: &mut Vec<u8>, v: u64)
    ensures
        final(out)@ == old(out)@ + u64_le(v),
{
    let ghost start = out@;
    let mut i: u64 = 0;
    while i < 8
        invariant
            i <= 8,
            out@ == start + u64_le(v).take(i as int),
        decreases 8 - i,
    {
        out.push((v >> (8 * i)) as u8);
        proof {
            assert(u64_le(v).take(i + 1) =~= u64_le(v).take(i as int).push(u64_le(v)[i as int]));
        }
        i = i + 1;
        assert(out@ =~= start + u64_le(v).take(i as int));
    }
    assert(u64_le(v).take(8) =~= u64_le(v));
}

/// Appends the bytes of `b` as they are.
pub fn push_bytes(out: &mut Vec<u8>, b: &[u8])
    ensures
        final(out)@ == old(out)@ + b@,
{
    let ghost start = out@;
    let mut i: usize = 0;
    while i < b.len()
        invariant
            i <= b@.len(),
            out@ == start + b@.take(i as int),
        decreases b@.len() - i,
    {
        out.push(b[i]);
        i = i + 1;
        assert(out@ =~= start + b@.take(i as int));
    }
    assert(b@.take(b@.len() as int) =~= b@);
}

/// Appends `b` prefixed by its length.
pub fn push_field(out: &mut Vec<u8>, b: &[u8])
    ensures
        final(out)@ == old(out)@ + field(b@),
{
    let ghost start = out@;
    push_u64(out, b.len() as u64);
    push_bytes(out, b);
    assert(out@ =~= start + field(b@));
}

} // verus!
