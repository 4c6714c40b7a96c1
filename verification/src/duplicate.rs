//! Copies that are known to be equal to what they copy.
use vstd::prelude::*;

verus! {

/// The views of a sequence of values.
pub open spec fn views<T: View>(values: Seq<T>) -> Seq<T::V> {
    values.map_values(|value: T| value@)
}

/// The view of an optional value.
pub open spec fn opt_view<T: View>(value: Option<T>) -> Option<T::V> {
    match value {
        Some(inner) => Some(inner@),
        None => None,
    }
}

/// A copy with the same view.
pub trait Duplicate: View + Sized {
    fn duplicate(&self) -> (r: Self)
        ensures
            r@ == self@,
    ;
}

impl Duplicate for String {
    fn duplicate(&self) -> (r: Self) {
        self.clone()
    }
}

/// A copy of a list.
pub fn duplicate_all<T: Duplicate>(values: &Vec<T>) -> (r: Vec<T>)
    ensures
        views(r@) == views(values@),
{
    duplicate_slice(values.as_slice())
}

/// An owned copy of a slice.
pub fn duplicate_slice<T: Duplicate>(values: &[T]) -> (r: Vec<T>)
    ensures
        views(r@) == views(values@),
{
    let mut copies: Vec<T> = Vec::new();
    let mut i: usize = 0;
    while i < values.len()
        invariant
            i <= values@.len(),
            views(copies@) == views(values@.take(i as int)),
        decreases values.len() - i,
    {
        copies.push(values[i].duplicate());
        assert(views(values@.take(i + 1)) == views(values@.take(i as int)).push(
            values@[i as int]@,
        ));
        i += 1;
    }
    assert(values@.take(i as int) == values@);
    copies
}

/// A copy of an optional value.
pub fn duplicate_opt<T: Duplicate>(value: &Option<T>) -> (r: Option<T>)
    ensures
        opt_view(r) == opt_view(*value),
{
    match value {
        Some(inner) => Some(inner.duplicate()),
        None => None,
    }
}

} // verus!
