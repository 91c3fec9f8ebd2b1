//! Typed extraction from the state store.

use vstd::prelude::*;

verus! {

/// A type that can extract a view of itself from the state store `St`.
///
/// The view may borrow from the store and lasts for one invocation of a
/// handler. What `retrieve` does when the state it asks for is missing is the
/// choice of the implementation: it may hand out a default, or fail.
pub trait Param<St> {
    /// The extracted view, for a store that is borrowed for `'a`.
    type Item<'a> where St: 'a;

    /// Extracts the view from the store.
    fn retrieve<'r>(states: &'r St) -> Self::Item<'r>;
}

} // verus!
