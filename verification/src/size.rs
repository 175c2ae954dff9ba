//! Sizes that are never zero.

use vstd::prelude::*;

verus! {

/// A size that is not zero: a length of something non-empty, or an offset
/// behind its start.
#[derive(Clone, Copy, Debug, PartialEq, Eq, PartialOrd, Ord, Hash)]
pub struct Size {
    value: usize,
}

impl Size {
    /// The number that the size holds.
    pub closed spec fn view(&self) -> usize {
        self.value
    }

    /// The invariant of the type: the size is not zero.
    pub open spec fn wf(&self) -> bool {
        self@ > 0
    }

    /// Makes a size of `value`, unless `value` is zero.
    pub fn new(value: usize) -> (r: Option<Size>)
        ensures
            r is Some <==> value > 0,
            r is Some ==> r->Some_0.wf() && r->Some_0@ == value,
    {
        if value == 0 {
            None
        } else {
            Some(Size { value })
        }
    }

    /// Makes a size of `value`, which the caller knows not to be zero.
    pub fn new_unchecked(value: usize) -> (r: Size)
        requires
            value > 0,
        ensures
            r.wf(),
            r@ == value,
    {
        Size { value }
    }

    /// The number that the size holds.
    pub fn get(self) -> (r: usize)
        ensures
            r == self@,
    {
        self.value
    }
}

} // verus!
