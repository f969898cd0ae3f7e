use vstd::prelude::*;

verus! {

/// A 32-byte account address.
pub type Key = [u8; 32];

/// Copies the address stored at `bytes[off..off + 32]`.
pub fn read_key(bytes: &[u8], off: usize) -> (k: Key)
    requires
        off + 32 <= bytes@.len(),
    ensures
        k@ == bytes@.subrange(off as int, off + 32),
{
    let n = bytes.len();
    let mut k: Key = [0u8; 32];
    let mut i: usize = 0;
    while i < 32
        invariant
            0 <= i <= 32,
            off + 32 <= bytes@.len(),
            bytes@.len() == n,
            k@.len() == 32,
            forall|j: int| 0 <= j < i ==> k@[j] == bytes@[off + j],
        decreases 32 - i,
    {
        k[i] = bytes[off + i];
        i = i + 1;
    }
    assert(k@ =~= bytes@.subrange(off as int, off + 32));
    k
}

/// Appends the 32 bytes of `k` to `out`.
pub fn push_key(out: &mut Vec<u8>, k: &Key)
    ensures
        final(out)@ == old(out)@ + k@,
{
    let ghost start = out@;
    let mut i: usize = 0;
    while i < 32
        invariant
            0 <= i <= 32,
            k@.len() == 32,
            out@ == start + k@.subrange(0, i as int),
        decreases 32 - i,
    {
        out.push(k[i]);
        assert(k@.subrange(0, i + 1) =~= k@.subrange(0, i as int).push(k@[i as int]));
        i = i + 1;
    }
    assert(k@.subrange(0, 32) =~= k@);
}

/// Whether two addresses are equal.
pub fn key_eq(a: &Key, b: &Key) -> (r: bool)
    ensures
        r == (a@ == b@),
        r == (*a == *b),
{
    broadcast use vstd::array::axiom_array_ext_equal;

    let mut i: usize = 0;
    while i < 32
        invariant
            0 <= i <= 32,
            a@.len() == 32,
            b@.len() == 32,
            forall|j: int| 0 <= j < i ==> a@[j] == b@[j],
        decreases 32 - i,
    {
        if a[i] != b[i] {
            return false;
        }
        i = i + 1;
    }
    assert(a@ =~= b@);
    assert(*a =~= *b);
    true
}

} // verus!
