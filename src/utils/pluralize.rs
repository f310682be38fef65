//! Choosing between a singular and a plural by a count.

use vstd::prelude::*;

verus! {

/// The word to use for `items` things: `self` for one, `plural` otherwise.
pub open spec fn plural_for<T>(singular: T, plural: T, items: nat) -> T {
    if items == 1 {
        singular
    } else {
        plural
    }
}

/// Generate a plural based on the number of items.
pub trait Pluralize<T> {
    /// `self` if there is exactly one item, `plural` otherwise.
    fn pluralize(self, plural: T, items: usize) -> T;
}

impl<T> Pluralize<T> for T {
    fn pluralize(self, plural: T, items: usize) -> (r: T)
        ensures
            r == plural_for(self, plural, items as nat),
    {
        match items {
            1 => self,
            _ => plural,
        }
    }
}

} // verus!
