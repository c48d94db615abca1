use vstd::prelude::*;

verus! {

/// A slot that is handed to the native service to be filled in, and then
/// consumed for the value it ended up with.
#[derive(Debug)]
pub struct CuePropertyValueHolder<T> {
    value: T,
}

impl<T> View for CuePropertyValueHolder<T> {
    type V = T;

    closed spec fn view(&self) -> T {
        self.value
    }
}

impl<T: Default> CuePropertyValueHolder<T> {
    /// A holder that starts out with the default value of `T`.
    pub fn new() -> (holder: Self)
        ensures
            call_ensures(T::default, (), holder@),
    {
        Self { value: Default::default() }
    }
}

impl<T> CuePropertyValueHolder<T> {
    /// A holder that starts out with `value`.
    pub fn new_with_initial_value(value: T) -> (holder: Self)
        ensures
            holder@ == value,
    {
        Self { value }
    }

    /// Exclusive access to the held value, for the party that fills it in.
    /// Whatever is written through the returned reference is what the holder
    /// holds afterwards.
    pub fn mut_ptr(&mut self) -> (slot: &mut T)
        ensures
            *slot == old(self)@,
            final(self)@ == *final(slot),
    {
        &mut self.value
    }

    /// Consumes the holder and gives the value it holds.
    pub fn value(self) -> (value: T)
        ensures
            value == self@,
    {
        self.value
    }
}

} // verus!
