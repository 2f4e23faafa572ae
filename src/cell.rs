//! A cell whose value is replaced by a function that consumes it.
use vstd::prelude::*;

verus! {

/// Holds a value that is updated by moving it into a closure and storing
/// what the closure returns. The cell is never observed empty.
pub struct SelfUpdating<T>(Option<T>);

impl<T> SelfUpdating<T> {
    #[verifier::type_invariant]
    spec fn filled(self) -> bool {
        self.0.is_some()
    }

    /// The value held by the cell.
    pub closed spec fn value(self) -> T {
        self.0.unwrap()
    }

    /// The cell that holds `v`.
    pub closed spec fn holding(v: T) -> Self {
        SelfUpdating(Some(v))
    }

    pub fn of(initial: T) -> (r: Self)
        ensures
            r == Self::holding(initial),
            r.value() == initial,
    {
        SelfUpdating(Some(initial))
    }

    /// Replaces the value by `op(value)`. The cell is taken by value: were
    /// `op` to unwind halfway, no cell is left behind in an emptied state.
    pub fn update<F: FnOnce(T) -> T>(self, op: F) -> (r: Self)
        requires
            op.requires((self.value(),)),
        ensures
            op.ensures((self.value(),), r.value()),
    {
        let current = self.unwrap();
        SelfUpdating(Some(op(current)))
    }

    pub fn unwrap(self) -> (r: T)
        ensures
            r == self.value(),
    {
        proof {
            use_type_invariant(&self);
        }
        let SelfUpdating(inner) = self;
        inner.unwrap()
    }

    pub fn get(&self) -> (r: &T)
        ensures
            *r == self.value(),
    {
        proof {
            use_type_invariant(self);
        }
        self.0.as_ref().unwrap()
    }

    pub fn get_mut(&mut self) -> (r: &mut T)
        ensures
            *r == old(self).value(),
            final(self).value() == *final(r),
    {
        proof {
            use_type_invariant(&*self);
        }
        filled_mut(&mut self.0)
    }
}

/// The content of an `Option` known to be filled, borrowed mutably.
fn filled_mut<T>(o: &mut Option<T>) -> (r: &mut T)
    requires
        old(o).is_some(),
    ensures
        *r == old(o).unwrap(),
        *final(o) == Some(*final(r)),
    no_unwind
{
    match o {
        Some(v) => v,
        None => unreached(),
    }
}

impl<T> From<T> for SelfUpdating<T> {
    fn from(r: T) -> (s: Self) {
        SelfUpdating::of(r)
    }
}

impl<T> vstd::std_specs::convert::FromSpecImpl<T> for SelfUpdating<T> {
    open spec fn obeys_from_spec() -> bool {
        true
    }

    open spec fn from_spec(v: T) -> Self {
        SelfUpdating::holding(v)
    }
}

impl<T> core::ops::Deref for SelfUpdating<T> {
    type Target = T;

    fn deref(&self) -> &T {
        self.get()
    }
}

impl<T> core::ops::DerefMut for SelfUpdating<T> {
    fn deref_mut(&mut self) -> &mut T {
        self.get_mut()
    }
}

} // verus!
