//! A vector of references with a method to read its first element, the
//! kind of method that an extension trait adds to `Vec<&T>`.
use vstd::prelude::*;

verus! {

/// A vector of references to `T`.
pub struct Vec<'a, T> {
    pub items: std::vec::Vec<&'a T>,
}

impl<'a, T: Eq> Vec<'a, T> where T: std::fmt::Debug {
    /// The first element, or `None` when the vector is empty.
    pub fn foo(&self) -> (r: Option<&'a T>)
        ensures
            self.items@.len() == 0 ==> r is None,
            self.items@.len() > 0 ==> r == Some(self.items@[0]),
    {
        if self.items.len() == 0 {
            None
        } else {
            Some(self.items[0])
        }
    }
}

} // verus!
