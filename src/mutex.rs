use vstd::prelude::*;

verus! {

/// Exclusive access to a value on a single hart.
pub struct Mutex<T> {
    inner: T,
}

/// Access to the value of a locked `Mutex`.
pub struct MutexGuard<'a, T> {
    pub inner: &'a mut T,
}

impl<T> Mutex<T> {
    pub closed spec fn value(&self) -> T {
        self.inner
    }

    pub fn new(inner: T) -> (r: Self)
        ensures
            r.value() == inner,
    {
        Self { inner }
    }

    /// Locks the value for the lifetime of the guard.
    pub fn lock(&mut self) -> (r: MutexGuard<'_, T>)
        ensures
            *r.inner == old(self).value(),
            final(self).value() == *final(r.inner),
    {
        MutexGuard { inner: &mut self.inner }
    }
}

} // verus!
