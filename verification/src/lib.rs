//! A borrow abstracted over its access capability.
//!
//! A [`Ref<'a, T, S>`] wraps a borrow of a `T` and carries, in the type
//! parameter `S`, the capability of that borrow: [`Shared`] for read-only
//! access, [`Unique`] for exclusive read/write access. Generic code can be
//! written once over any `S: RefType` and still be statically prevented from
//! mutating through a `Shared` reference: the operations that recover an
//! exclusive borrow exist only at `S = Unique`.
//!
//! The capability set is closed: `RefType` has a crate-private supertrait, so
//! no downstream crate can add a third capability.
//!
//! A `Ref` to a record can be projected into a companion view in which every
//! field is itself a `Ref` of the same capability (see [`RefAccessors`] and
//! the record types of [`records`]), and a `Ref` to an array can be projected
//! into a lazy sequence of element `Ref`s (see [`IntoIteratorRef`]).

use vstd::prelude::*;

mod sealed;
pub mod functor;
pub mod records;
pub mod shape;

mod traits;

pub use traits::DerefRef;
pub use traits::IndexRef;
pub use traits::IntoIteratorRef;
pub use traits::RefIter;
pub use traits::RefIterator;

use core::marker::PhantomData;

verus! {

/// The borrow that a `Ref` carries: either a shared borrow or the original
/// exclusive borrow, kept end-to-end so that mutable access never has to be
/// reconstructed from a read-only one.
#[derive(Debug, PartialEq, Eq)]
pub enum Borrow<'a, T> {
    Read(&'a T),
    Write(&'a mut T),
}

impl<'a, T> Borrow<'a, T> {
    /// The value currently stored at the borrowed place.
    pub open(crate) spec fn cur(self) -> T {
        match self {
            Borrow::Read(t) => *t,
            Borrow::Write(t) => *t,
        }
    }

    /// Whether this is the exclusive form.
    pub open(crate) spec fn is_write(self) -> bool {
        self matches Borrow::Write(_)
    }

    /// The shared borrow, where this is the read-only form.
    pub open(crate) spec fn borrow_read_ref(self) -> &'a T {
        self->Read_0
    }

    /// The exclusive borrow, where this is the exclusive form.
    pub open(crate) spec fn borrow_write_ref(self) -> &'a mut T {
        self->Write_0
    }
}

/// The Ref type. The third type parameter is the capability of the borrow.
#[derive(Debug, PartialEq, Eq)]
pub struct Ref<'a, T, S: Capability> {
    value: Borrow<'a, T>,
    ty: PhantomData<S>,
}

/// Shared reference capability: any number may alias, none may write.
#[derive(Debug, PartialEq, Eq, Clone, Copy)]
pub struct Shared;

/// Unique reference capability: at most one exists for a place, and it may
/// write.
#[derive(Debug, PartialEq, Eq, Clone, Copy)]
pub struct Unique;

/// A pair of functions, one for each capability, so that code generic over
/// the capability can choose the transformation that matches it: `apply` runs
/// on a shared borrow, `apply_mut` on an exclusive one.
#[verifier::reject_recursive_types(A)]
#[verifier::reject_recursive_types(B)]
pub struct RefFn<F1, F2, A, B> where F1: FnOnce(&A) -> &B, F2: FnOnce(&mut A) -> &mut B {
    pub apply: F1,
    pub apply_mut: F2,
    _marker: PhantomData<(A, B)>,
}

impl<F1, F2, A, B> RefFn<F1, F2, A, B> where F1: FnOnce(&A) -> &B, F2: FnOnce(&mut A) -> &mut B {
    /// The read-only transformation.
    pub closed spec fn apply_spec(self) -> F1 {
        self.apply
    }

    /// The exclusive transformation.
    pub closed spec fn apply_mut_spec(self) -> F2 {
        self.apply_mut
    }

    /// Packs the two transformations into one capability-indexed value.
    pub fn new(apply: F1, apply_mut: F2) -> (f: Self)
        ensures
            f.apply_spec() == apply,
            f.apply_mut_spec() == apply_mut,
    {
        RefFn { apply, apply_mut, _marker: PhantomData }
    }
}

impl<F1, F2, A, B> RefFn<F1, F2, A, B> where F1: FnOnce(&A) -> &B, F2: FnOnce(&mut A) -> &mut B {
    /// Applies the function that matches the capability of `x` to the borrow
    /// that `x` carries. See [`RefType::_apply_once`] for the contract.
    pub fn ap<'a, T: RefType>(self, x: Ref<'a, A, T>) -> (r: Ref<'a, B, T>)
        requires
            x.wf(),
            !T::is_unique() ==> call_requires(self.apply_spec(), (x.read_ref(),)),
            T::is_unique() ==> forall|t0: &'a mut A|
                *t0 == x@ ==> #[trigger] call_requires(self.apply_mut_spec(), (t0,)),
        ensures
            r.wf(),
            !T::is_unique() ==> call_ensures(self.apply_spec(), (x.read_ref(),), r.read_ref()),
            T::is_unique() ==> exists|t0: &'a mut A, y0: &'a mut B|
                {
                    &&& *final(t0) == *final(x.write_ref())
                    &&& #[trigger] call_ensures(self.apply_mut_spec(), (t0,), y0)
                    &&& *y0 == r@
                    &&& *final(y0) == *final(r.write_ref())
                },
    {
        T::_apply_once(self, x)
    }
}

/// The closed set of access capabilities, of which there are exactly two:
/// [`Shared`] and [`Unique`]. The private supertrait seals the set.
pub trait Capability: sealed::Sealed + Copy + Sized {
    /// Whether this capability permits exclusive access.
    spec fn is_unique() -> bool;
}

impl Capability for Shared {
    open spec fn is_unique() -> bool {
        false
    }
}

impl Capability for Unique {
    open spec fn is_unique() -> bool {
        true
    }
}

/// The capability of a borrow.
///
/// This may either be [`Shared`] or [`Unique`].
pub trait RefType: Capability {
    /// Runs the one of the two functions in `f` that matches this
    /// capability, on the borrow carried by `x`, and wraps what it returns
    /// with the capability unchanged. This is the single dispatch point that
    /// lets capability-generic code choose between a read-only and an
    /// exclusive transformation without a runtime tag check.
    fn _apply_once<'a, F1, F2, A, B>(f: RefFn<F1, F2, A, B>, x: Ref<'a, A, Self>) -> (r: Ref<
        'a,
        B,
        Self,
    >) where F1: FnOnce(&A) -> &B, F2: FnOnce(&mut A) -> &mut B
        requires
            x.wf(),
            !Self::is_unique() ==> call_requires(f.apply_spec(), (x.read_ref(),)),
            Self::is_unique() ==> forall|t0: &'a mut A|
                *t0 == x@ ==> #[trigger] call_requires(f.apply_mut_spec(), (t0,)),
        ensures
            r.wf(),
            !Self::is_unique() ==> call_ensures(f.apply_spec(), (x.read_ref(),), r.read_ref()),
            Self::is_unique() ==> exists|t0: &'a mut A, y0: &'a mut B|
                {
                    &&& *final(t0) == *final(x.write_ref())
                    &&& #[trigger] call_ensures(f.apply_mut_spec(), (t0,), y0)
                    &&& *y0 == r@
                    &&& *final(y0) == *final(r.write_ref())
                },
    ;
}

impl RefType for Shared {
    fn _apply_once<'a, F1, F2, A, B>(f: RefFn<F1, F2, A, B>, x: Ref<'a, A, Self>) -> (r: Ref<
        'a,
        B,
        Self,
    >) where F1: FnOnce(&A) -> &B, F2: FnOnce(&mut A) -> &mut B {
        match x.unwrap_borrow() {
            Borrow::Read(t) => Shared::new((f.apply)(t)),
            Borrow::Write(_) => vstd::pervasive::unreached(),
        }
    }
}

impl RefType for Unique {
    fn _apply_once<'a, F1, F2, A, B>(f: RefFn<F1, F2, A, B>, x: Ref<'a, A, Self>) -> (r: Ref<
        'a,
        B,
        Self,
    >) where F1: FnOnce(&A) -> &B, F2: FnOnce(&mut A) -> &mut B {
        match x.unwrap_borrow() {
            Borrow::Write(t) => {
                proof {
                    assert(call_requires(f.apply_mut_spec(), (t,)));
                }
                Unique::new((f.apply_mut)(t))
            },
            Borrow::Read(_) => vstd::pervasive::unreached(),
        }
    }
}

impl<'a, T, S: Capability> Ref<'a, T, S> {
    /// The capability tag agrees with the form of the stored borrow. Every
    /// public constructor establishes this and every operation preserves it.
    pub closed spec fn wf(self) -> bool {
        self.value.is_write() == S::is_unique()
    }

    /// The shared borrow carried by a well-formed `Shared` reference.
    pub closed spec fn read_ref(self) -> &'a T {
        self.value->Read_0
    }

    /// The exclusive borrow carried by a well-formed `Unique` reference.
    pub closed spec fn write_ref(self) -> &'a mut T {
        self.value->Write_0
    }
}

impl<'a, T, S: Capability> View for Ref<'a, T, S> {
    type V = T;

    /// The value currently stored at the place this reference borrows.
    closed spec fn view(&self) -> T {
        self.value.cur()
    }
}

impl Shared {
    /// Creates a new shared Ref from a shared borrow.
    pub fn new<'a, T>(t: &'a T) -> (r: Ref<'a, T, Shared>)
        ensures
            r.wf(),
            r.read_ref() == t,
            r@ == *t,
    {
        Ref { value: Borrow::Read(t), ty: PhantomData }
    }
}

impl Unique {
    /// Creates a new unique Ref from an exclusive borrow. The borrow itself
    /// is moved into the Ref, so exclusivity is inherited from the language's
    /// own borrow rules rather than asserted.
    pub fn new<'a, T>(t: &'a mut T) -> (r: Ref<'a, T, Unique>)
        ensures
            r.wf(),
            r@ == *old(t),
            *final(t) == *final(r.write_ref()),
    {
        Ref { value: Borrow::Write(t), ty: PhantomData }
    }
}

impl<'a, T, S: Capability> Ref<'a, T, S> {
    /// Converts the Ref into a read-only borrow. This works for both shared
    /// and unique references.
    pub fn as_ref(&self) -> (t: &T)
        ensures
            *t == self@,
    {
        match &self.value {
            Borrow::Read(t) => *t,
            Borrow::Write(t) => &**t,
        }
    }

    /// Forgets exclusive access: a `Unique` reference is trivially usable as
    /// a `Shared` one, so this always succeeds. The converse has no safe
    /// implementation and no public path. Downgrading a `Unique` reference
    /// gives up the last handle that could write, so the borrowed place keeps
    /// its current value for the remainder of the borrow.
    pub fn downgrade(self) -> (r: Ref<'a, T, Shared>)
        requires
            self.wf(),
        ensures
            r.wf(),
            r@ == self@,
            S::is_unique() ==> *final(self.write_ref()) == self@,
            !S::is_unique() ==> r.read_ref() == self.read_ref(),
    {
        match self.value {
            Borrow::Read(t) => Ref { value: Borrow::Read(t), ty: PhantomData },
            Borrow::Write(t) => Ref { value: Borrow::Read(&*t), ty: PhantomData },
        }
    }
}

impl<'a, T> Ref<'a, T, Unique> {
    /// Converts the Ref back into the exclusive borrow it was built from,
    /// consuming the Ref. This exists only at `Unique`; on a `Shared`
    /// reference the call is a type error.
    pub fn as_mut(self) -> (t: &'a mut T)
        requires
            self.wf(),
        ensures
            *t == self@,
            *final(t) == *final(self.write_ref()),
    {
        match self.value {
            Borrow::Write(t) => t,
            Borrow::Read(_) => vstd::pervasive::unreached(),
        }
    }
}

impl<'a, T, S: Capability> Ref<'a, T, S> {
    /// Wraps a shared borrow of one field of a record whose whole is held by
    /// a `Shared` reference. Only the field-projection impls call this; the
    /// capability of the field borrow mirrors the capability of the record
    /// borrow it was destructured from.
    pub(crate) fn from_read(t: &'a T) -> (r: Ref<'a, T, S>)
        requires
            !S::is_unique(),
        ensures
            r.wf(),
            r.read_ref() == t,
            r@ == *t,
    {
        Ref { value: Borrow::Read(t), ty: PhantomData }
    }

    /// Wraps an exclusive borrow of one field, the counterpart of
    /// [`Ref::from_read`] for the `Unique` capability.
    pub(crate) fn from_write(t: &'a mut T) -> (r: Ref<'a, T, S>)
        requires
            S::is_unique(),
        ensures
            r.wf(),
            r@ == *old(t),
            *final(t) == *final(r.write_ref()),
    {
        Ref { value: Borrow::Write(t), ty: PhantomData }
    }
}

impl<'a, T, S: Capability> Ref<'a, T, S> {
    /// Takes the stored borrow back out of the reference, so that a
    /// field-projection impl can destructure the borrowed value. The form of
    /// the borrow mirrors the capability tag.
    pub(crate) fn unwrap_borrow(self) -> (b: Borrow<'a, T>)
        requires
            self.wf(),
        ensures
            b.is_write() == S::is_unique(),
            b.cur() == self@,
            b.is_write() ==> *final(b.borrow_write_ref()) == *final(self.write_ref()),
            !b.is_write() ==> b.borrow_read_ref() == self.read_ref(),
    {
        self.value
    }
}

/// Projection of a whole-record reference into the record's companion view,
/// in which every field is itself a reference of the same capability.
///
/// Each record or tagged-variant type gets its own impl of this trait (see
/// [`records`]); `Wrapped` is that type's companion view.
pub trait RefAccessors<Wrapped>: Sized {
    /// Well-formedness of the reference being projected.
    spec fn src_wf(self) -> bool;

    /// How the view relates to the projected reference: arm for arm and
    /// field for field, every wrapped field is well formed and currently
    /// holds the corresponding field of the record.
    spec fn wrap_rel(self, w: Wrapped) -> bool;

    /// Projects the reference into the companion view, distributing the
    /// capability unchanged over all fields.
    fn to_wrapped(self) -> (w: Wrapped)
        requires
            self.src_wf(),
        ensures
            self.wrap_rel(w),
    ;
}

/// Conversion of a native borrow into the capability-tagged reference that
/// matches it: `&T` becomes `Ref<T, Shared>`, `&mut T` becomes
/// `Ref<T, Unique>`.
pub trait IntoRef: Sized {
    type Output;

    /// How the produced reference relates to the borrow it came from.
    spec fn into_ref_rel(self, out: Self::Output) -> bool;

    fn into_ref(self) -> (out: Self::Output)
        ensures
            self.into_ref_rel(out),
    ;
}

impl<'a, T> IntoRef for &'a T {
    type Output = Ref<'a, T, Shared>;

    open spec fn into_ref_rel(self, out: Self::Output) -> bool {
        &&& out.wf()
        &&& out.read_ref() == self
        &&& out@ == *self
    }

    fn into_ref(self) -> (out: Self::Output) {
        Shared::new(self)
    }
}

impl<'a, T> IntoRef for &'a mut T {
    type Output = Ref<'a, T, Unique>;

    open spec fn into_ref_rel(self, out: Self::Output) -> bool {
        &&& out.wf()
        &&& out@ == *self
    }

    fn into_ref(self) -> (out: Self::Output)
        ensures
            *final(self) == *final(out.write_ref()),
    {
        Unique::new(self)
    }
}

impl<'a, T, S: Capability> Ref<'a, T, S> {
    /// Builds the reference whose capability matches the given borrow.
    pub fn new(this: impl IntoRef<Output = Self>) -> (r: Self)
        ensures
            this.into_ref_rel(r),
    {
        this.into_ref()
    }
}

} // verus!
