//! Values that must not be printed.
use vstd::prelude::*;

verus! {

/// A value that has to be asked for by name: it cannot be formatted, so it does not leak into
/// logs.
#[derive(PartialEq, Eq)]
pub struct Secret<T> {
    inner: T,
}

impl<T: View> View for Secret<T> {
    type V = T::V;

    closed spec fn view(&self) -> T::V {
        self.inner@
    }
}

impl<T: View> Secret<T> {
    pub fn new(inner: T) -> (r: Self)
        ensures
            r@ == inner@,
    {
        Secret { inner }
    }

    /// The value behind the secret.
    pub fn peek(&self) -> (r: &T)
        ensures
            r@ == self@,
    {
        &self.inner
    }
}

impl Clone for Secret<String> {
    fn clone(&self) -> (r: Self)
        ensures
            r == *self,
    {
        Secret { inner: self.inner.clone() }
    }
}

} // verus!
