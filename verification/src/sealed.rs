use vstd::prelude::*;

verus! {

/// The sealing interface for the capability set.
///
/// This trait lives in a module that is private to the crate, so no
/// downstream code can name it. Because [`crate::Capability`] demands it as
/// a supertrait, the set of capability tags is closed for good: only the two
/// tags defined by this crate can ever implement [`crate::Capability`] or
/// [`crate::RefType`].
pub trait Sealed {

}

impl Sealed for crate::Shared {

}

impl Sealed for crate::Unique {

}

impl<'a, T, S: crate::Capability> Sealed for crate::Ref<'a, T, S> {

}

} // verus!
