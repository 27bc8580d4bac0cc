//! Ownership at construction time: a struct built either by moving its inputs
//! or by copying out of borrowed ones, and functions that consume or borrow it.

use vstd::prelude::*;
use vstd::slice::slice_to_vec;

verus! {

/// Owned text and bytes, used to show how construction moves or copies its inputs.
#[derive(Debug, Clone)]
pub struct MyStruct {
    pub my_string: String,
    pub bytes: Vec<u8>,
}

impl MyStruct {
    /// Takes ownership of both arguments; the stored values are exactly the ones given.
    pub fn new_owned(bytes: Vec<u8>, my_string: String) -> (r: Self)
        ensures
            r.my_string@ == my_string@,
            r.bytes@ == bytes@,
    {
        Self { my_string, bytes }
    }

    /// Copies out of the borrowed arguments, so the caller keeps the originals.
    pub fn new_ref(bz: &[u8], m_str: &str) -> (r: Self)
        ensures
            r.my_string@ == m_str@,
            r.bytes@ == bz@,
    {
        Self { my_string: m_str.to_owned(), bytes: slice_to_vec(bz) }
    }

    /// Replaces the stored string; the bytes keep their value.
    pub fn update_string(&mut self, u_string: &str)
        ensures
            final(self).my_string@ == u_string@,
            final(self).bytes@ == old(self).bytes@,
    {
        self.my_string = u_string.to_owned();
    }
}

/// Takes the struct by value: ownership moves here and the value is dropped.
pub fn move_struct(_s: MyStruct) {
}

/// Borrows the struct: the caller keeps ownership and may use it afterwards.
pub fn pass_ref(_s: &MyStruct) {
}

} // verus!
