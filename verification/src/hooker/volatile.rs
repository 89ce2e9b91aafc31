//! A cell for a value that is shared with code outside the program.

use vstd::prelude::*;

verus! {

/// A value that is always read from, and written to, its place in memory.
pub struct Volatile<T>(T);

impl<T: Copy> View for Volatile<T> {
    type V = T;

    closed spec fn view(&self) -> T {
        self.0
    }
}

impl<T: Copy> Volatile<T> {
    /// A cell that holds `value`.
    pub fn new(value: T) -> (cell: Self)
        ensures
            cell@ == value,
    {
        Volatile(value)
    }

    /// The value that the cell holds.
    pub fn get(&self) -> (value: T)
        ensures
            value == self@,
    {
        self.0
    }

    /// Puts `value` into the cell.
    pub fn set(&mut self, value: T)
        ensures
            final(self)@ == value,
    {
        self.0 = value;
    }
}

} // verus!
