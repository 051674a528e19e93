use vstd::prelude::*;

verus! {

/// Access to the single inner sound a wrapper owns.
///
/// Implementations describe with `spec_inner` which value the wrapped sound
/// currently has and with `with_inner` how the wrapper looks once its inner
/// sound is replaced; the three executable methods are exact against those
/// two descriptions.
pub trait Wrapper: Sized {
    /// The wrapped sound type.
    type Inner;

    /// The current value of the wrapped inner sound.
    spec fn spec_inner(&self) -> Self::Inner;

    /// This wrapper with its inner sound replaced by `inner` and all of its
    /// own state kept.
    spec fn with_inner(&self, inner: Self::Inner) -> Self;

    /// Get a reference to the wrapped inner sound.
    fn inner(&self) -> (r: &Self::Inner)
        ensures
            *r == self.spec_inner(),
    ;

    /// Get a mutable reference to the wrapped inner sound.
    fn inner_mut(&mut self) -> (r: &mut Self::Inner)
        ensures
            *r == old(self).spec_inner(),
            *final(self) == old(self).with_inner(*final(r)),
    ;

    /// Unwrap and return the previously wrapped sound.
    fn into_inner(self) -> (r: Self::Inner)
        ensures
            r == self.spec_inner(),
    ;
}

} // verus!
