//! A cell that may be empty.
use vstd::prelude::*;

verus! {

/// A place for a value that may be empty: it is filled, emptied and read
/// by whoever holds it.
pub struct UnsafeData<T> {
    value: Option<T>,
}

impl<T> UnsafeData<T> {
    /// The value held, if any.
    pub closed spec fn view(&self) -> Option<T> {
        self.value
    }

    /// An empty cell.
    pub fn empty() -> (c: Self)
        ensures
            c@.is_none(),
    {
        UnsafeData { value: None }
    }

    /// A cell that holds `t`.
    pub fn new(t: T) -> (c: UnsafeData<T>)
        ensures
            c@ == Some(t),
    {
        UnsafeData { value: Some(t) }
    }

    /// Puts `t` into the cell and gives what it held before.
    pub fn replace(&mut self, t: T) -> (prev: Option<T>)
        ensures
            prev == old(self)@,
            final(self)@ == Some(t),
    {
        let prev = self.value.take();
        self.value = Some(t);
        prev
    }

    /// Empties the cell and gives what it held.
    pub fn take(&mut self) -> (prev: Option<T>)
        ensures
            prev == old(self)@,
            final(self)@.is_none(),
    {
        self.value.take()
    }

    /// True where the cell holds a value.
    pub fn has_value(&self) -> (b: bool)
        ensures
            b == self@.is_some(),
    {
        self.value.is_some()
    }

    /// The value held. An empty cell is left out.
    pub fn as_ref(&self) -> (t: &T)
        requires
            self@.is_some(),
        ensures
            Some(*t) == self@,
    {
        self.value.as_ref().unwrap()
    }

    /// The value held, to change it in place. An empty cell is left out.
    pub fn as_mut(&mut self) -> (t: &mut T)
        requires
            old(self)@.is_some(),
        ensures
            Some(*t) == old(self)@,
            final(self)@ == Some(*final(t)),
    {
        self.value.as_mut().unwrap()
    }
}

} // verus!
