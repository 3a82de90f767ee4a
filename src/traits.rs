use vstd::prelude::*;

verus! {

/// Grants a caller-supplied operation shared or exclusive access to one
/// owned value, for the extent of that operation only.
///
/// The operation never receives anything it could keep: a shared operation
/// sees a reference that ends with it, and an exclusive one takes the value
/// and must hand back the value that replaces it. Exclusive access borrows
/// the holder mutably, so no operation can reach the holder again while it
/// runs.
pub trait Callback<T> {
    /// The value currently held.
    spec fn value(&self) -> T;

    /// Whether the holder is in a usable state.
    spec fn inv(&self) -> bool;

    /// Runs `function` on a shared reference to the held value and returns
    /// its result.
    fn with_ref<R, F: FnOnce(&T) -> R>(&self, function: F) -> (r: R)
        requires
            self.inv(),
            function.requires((&self.value(),)),
        ensures
            function.ensures((&self.value(),), r),
    ;

    /// Runs `function` with exclusive access to the held value: the value
    /// becomes the first part of what `function` returns, and the second
    /// part is returned.
    fn with_mut<R, F: FnOnce(T) -> (T, R)>(&mut self, function: F) -> (r: R)
        requires
            old(self).inv(),
            function.requires((old(self).value(),)),
        ensures
            final(self).inv(),
            function.ensures((old(self).value(),), (final(self).value(), r)),
    ;
}

/// The owning holder of a value, handing out access only through
/// [`Callback`].
pub struct AccessCell<T> {
    slot: Option<T>,
}

impl<T> AccessCell<T> {
    /// A holder of `value`.
    pub fn new(value: T) -> (r: Self)
        ensures
            r.inv(),
            r.value() == value,
    {
        AccessCell { slot: Some(value) }
    }
}

impl<T> Callback<T> for AccessCell<T> {
    closed spec fn value(&self) -> T {
        self.slot->Some_0
    }

    closed spec fn inv(&self) -> bool {
        self.slot is Some
    }

    fn with_ref<R, F: FnOnce(&T) -> R>(&self, function: F) -> (r: R) {
        let value = self.slot.as_ref().unwrap();
        function(value)
    }

    fn with_mut<R, F: FnOnce(T) -> (T, R)>(&mut self, function: F) -> (r: R) {
        let value = self.slot.take().unwrap();
        let (next, r) = function(value);
        self.slot = Some(next);
        r
    }
}

} // verus!
