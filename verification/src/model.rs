//! How values that hold text, and lists and lookups of them, are spoken of in
//! contracts.

use vstd::prelude::*;

verus! {

/// The views of the items of `items`, in order.
pub open spec fn views<T: View>(items: Seq<T>) -> Seq<T::V> {
    Seq::new(items.len(), |i: int| items[i]@)
}

/// What a store lookup that the embedding then parses came back with.
#[derive(Debug, PartialEq, Eq)]
pub enum Lookup<T> {
    /// Nothing is stored under the key.
    Missing,
    /// What is stored does not parse as the expected shape.
    Unreadable,
    /// The stored value.
    Found(T),
}

/// What a `Lookup` came back with, as mathematical values.
pub enum LookupView<V> {
    Missing,
    Unreadable,
    Found(V),
}

impl<T: View> View for Lookup<T> {
    type V = LookupView<T::V>;

    open spec fn view(&self) -> LookupView<T::V> {
        match self {
            Lookup::Missing => LookupView::Missing,
            Lookup::Unreadable => LookupView::Unreadable,
            Lookup::Found(value) => LookupView::Found(value@),
        }
    }
}

} // verus!
