//! Passing data to and from functions: immutable and mutable borrows, moves,
//! borrowed returns, and borrows held inside a struct.

use vstd::prelude::*;
use vstd::slice::slice_subrange;

verus! {

/// Extends the vector with a copy of the given bytes, in order.
pub fn append_bytes(vec: &mut Vec<u8>, new_bz: &[u8])
    ensures
        final(vec)@ == old(vec)@ + new_bz@,
{
    vec.extend_from_slice(new_bz);
}

/// Overwrites the first byte with zero; an empty slice is left as it is.
pub fn blank_first_byte(bz: &mut [u8])
    ensures
        old(bz)@.len() == 0 ==> final(bz)@ == old(bz)@,
        old(bz)@.len() > 0 ==> final(bz)@ == old(bz)@.update(0, 0u8),
{
    if !bz.is_empty() {
        bz[0] = 0;
    }
}

/// Takes the vector by value: it is moved here and dropped.
pub fn move_vec(_v: Vec<u8>) {
}

/// Borrows the first half of the slice (rounding down), for as long as the
/// input borrow lives.
pub fn first_half<'a>(v: &'a [u8]) -> (r: &'a [u8])
    ensures
        r@ == v@.subrange(0, v@.len() as int / 2),
{
    slice_subrange(v, 0, v.len() / 2)
}

/// Holds a borrowed byte slice; the borrow's lifetime is part of the type.
pub struct StructWithBytes<'bz> {
    pub bytes: &'bz [u8],
}

/// Hands the bytes held by the struct back out under the struct's borrow.
pub fn struct_bytes<'param>(st: &'param StructWithBytes) -> (r: &'param [u8])
    ensures
        r@ == st.bytes@,
{
    st.bytes
}

/// Returns one of the two borrowed slices, chosen by the flag.
pub fn choose_bytes<'a>(b1: &'a [u8], b2: &'a [u8], c: bool) -> (r: &'a [u8])
    ensures
        c ==> r@ == b1@,
        !c ==> r@ == b2@,
{
    if c {
        b1
    } else {
        b2
    }
}

/// Allocates a fresh vector here and passes ownership back to the caller.
pub fn generate_heap_data() -> (r: Vec<u8>)
    ensures
        r@ == seq![1u8, 4u8, 2u8, 0u8],
{
    let mut v: Vec<u8> = Vec::new();
    v.push(1);
    v.push(4);
    v.push(2);
    v.push(0);
    proof {
        assert(v@ =~= seq![1u8, 4u8, 2u8, 0u8]);
    }
    v
}

} // verus!
