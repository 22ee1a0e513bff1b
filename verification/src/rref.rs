use vstd::prelude::*;

verus! {

/// An owned reference to a value that can be handed from one domain to another.
///
/// The reference owns its value: moving the reference moves the value, and the
/// value is only reached through the reference.
pub struct RRef<T> {
    value: Box<T>,
}

impl<T> View for RRef<T> {
    type V = T;

    closed spec fn view(&self) -> T {
        *self.value
    }
}

impl<T> RRef<T> {
    /// Moves `value` into a new reference.
    pub fn new(value: T) -> (r: Self)
        ensures
            r@ == value,
    {
        RRef { value: Box::new(value) }
    }

    /// The referenced value.
    pub fn borrow(&self) -> (r: &T)
        ensures
            *r == self@,
    {
        &self.value
    }

    /// Mutable access to the referenced value.
    pub fn borrow_mut(&mut self) -> (r: &mut T)
        ensures
            *r == old(self)@,
            final(self)@ == *final(r),
        no_unwind
    {
        &mut self.value
    }

    /// Gives the value back, consuming the reference.
    pub fn into_inner(self) -> (r: T)
        ensures
            r == self@,
    {
        *self.value
    }
}

impl<T> core::ops::Deref for RRef<T> {
    type Target = T;

    fn deref(&self) -> (r: &T)
        ensures
            *r == self@,
    {
        &self.value
    }
}

} // verus!
