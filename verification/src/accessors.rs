//! Accessor patterns on structs with private fields: immutable getters,
//! mutable getters, and copied or cloned returns, each with an exact contract
//! over the type's view.

use vstd::prelude::*;

verus! {

/// A flag behind accessors; its view is the flag's value.
#[derive(Debug, PartialEq)]
pub struct OtherStruct {
    valid: bool,
}

impl Clone for OtherStruct {
    /// A clone holds the same flag.
    fn clone(&self) -> (r: Self)
        ensures
            r@ == self@,
    {
        OtherStruct { valid: self.valid }
    }
}

impl View for OtherStruct {
    type V = bool;

    closed spec fn view(&self) -> bool {
        self.valid
    }
}

impl Default for OtherStruct {
    /// The default flag is cleared.
    fn default() -> (r: Self)
        ensures
            r@ == false,
    {
        OtherStruct { valid: false }
    }
}

impl OtherStruct {
    /// Borrows the flag.
    pub fn get(&self) -> (r: &bool)
        ensures
            *r == self@,
    {
        &self.valid
    }

    /// Overwrites the flag.
    pub fn set(&mut self, valid: bool)
        ensures
            final(self)@ == valid,
    {
        self.valid = valid;
    }
}

/// A byte paired with an [`OtherStruct`]; its view is the pair of their values.
#[derive(Debug, PartialEq)]
pub struct MyStruct {
    val: u8,
    other: OtherStruct,
}

impl Clone for MyStruct {
    /// A clone holds the same byte and flag.
    fn clone(&self) -> (r: Self)
        ensures
            r@ == self@,
    {
        MyStruct { val: self.val, other: self.other.clone() }
    }
}

impl View for MyStruct {
    type V = (u8, bool);

    closed spec fn view(&self) -> (u8, bool) {
        (self.val, self.other@)
    }
}

impl Default for MyStruct {
    /// The default holds a zero byte and a cleared flag.
    fn default() -> (r: Self)
        ensures
            r@ == (0u8, false),
    {
        MyStruct { val: 0, other: OtherStruct::default() }
    }
}

impl MyStruct {
    /// Stores the given byte; the rest of the fields take their defaults.
    pub fn new(val: u8) -> (r: Self)
        ensures
            r@ == (val, false),
    {
        Self { val, ..Default::default() }
    }

    /// Borrows the byte.
    pub fn val(&self) -> (r: &u8)
        ensures
            *r == self@.0,
    {
        &self.val
    }

    /// Borrows the inner struct.
    pub fn other(&self) -> (r: &OtherStruct)
        ensures
            r@ == self@.1,
    {
        &self.other
    }

    /// Mutably borrows the byte: what the caller writes through the borrow
    /// becomes the new byte, and the flag keeps its value.
    pub fn val_mut(&mut self) -> (r: &mut u8)
        ensures
            *r == old(self)@.0,
            final(self)@ == (*final(r), old(self)@.1),
    {
        &mut self.val
    }

    /// Mutably borrows the inner struct: its final value becomes the new
    /// flag, and the byte keeps its value.
    pub fn other_mut(&mut self) -> (r: &mut OtherStruct)
        ensures
            (*r)@ == old(self)@.1,
            final(self)@ == (old(self)@.0, (*final(r))@),
    {
        &mut self.other
    }

    /// Returns the byte by value (an implicit copy).
    pub fn val_copy(&self) -> (r: u8)
        ensures
            r == self@.0,
    {
        self.val
    }

    /// Returns a clone of the inner struct; the original is untouched.
    pub fn other_cloned(&self) -> (r: OtherStruct)
        ensures
            r@ == self@.1,
    {
        self.other.clone()
    }
}

/// Walks through the accessors: a clone taken before a mutation does not see
/// the mutation, while a fresh borrow does. Every step is checked statically.
pub fn run_example() {
    let mut my_s = MyStruct::new(1);
    let first_flag = *my_s.other().get();
    assert(first_flag == false);
    let v = my_s.val_copy();
    assert(v == 1);

    let other_clone = my_s.other_cloned();
    // A mutable borrow of the inner struct is needed to set its flag.
    my_s.other_mut().set(true);

    // The clone was taken first, so the update did not reach it.
    assert(other_clone@ == false);
    let flag_now = *my_s.other().get();
    assert(flag_now == true);
}

/// Holds a mutable borrow of a byte beside an immutable borrow of a struct
/// (both cannot come from one place): copies the struct's flag into the byte.
pub fn mut_imut_function(value: &mut u8, other: &OtherStruct)
    ensures
        *final(value) == if other@ { 1u8 } else { 0u8 },
{
    *value = if *other.get() { 1 } else { 0 };
}

} // verus!
