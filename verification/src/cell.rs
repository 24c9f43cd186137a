use vstd::prelude::*;

verus! {

/// A single mutable value with change notification: the leaf primitive of the
/// reactive core.
///
/// Dependents are registered explicitly with the owner of the cell, not with
/// the cell itself: the owner is the sole writer, and it re-evaluates every
/// dependent computation after each committed write, so no dependent ever
/// observes a value that is out of date with respect to the cell.
pub struct ObservableCell<T> {
    value: T,
}

impl<T> ObservableCell<T> {
    /// The current value, for use in contracts.
    pub closed spec fn value_spec(&self) -> T {
        self.value
    }

    pub fn new(value: T) -> (cell: Self)
        ensures
            cell.value_spec() == value,
    {
        ObservableCell { value }
    }

    /// Read the current value.
    pub fn get(&self) -> (r: &T)
        ensures
            *r == self.value_spec(),
    {
        &self.value
    }

    /// Replace the current value. Notification of dependents is the owner's
    /// next step after this returns.
    pub fn set(&mut self, value: T)
        ensures
            final(self).value_spec() == value,
    {
        self.value = value;
    }
}

} // verus!
