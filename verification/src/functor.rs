//! A small, standalone value-transform utility: a boxed homogeneous sequence
//! whose elements can be mapped through a function, the container shape
//! carried as a type parameter.
//!
//! This shares no invariants with the reference core; it is kept apart from
//! it on purpose.

use vstd::prelude::*;

verus! {

/// The shape of the container a [`Functor`] boxes. [`VecFunctor`] is the
/// vector shape.
pub trait FunctorShape: Sized {

}

/// A container of `T`s of shape `S`, ready to be mapped elementwise.
pub struct Functor<T, S: FunctorShape> {
    x: S,
    value: Vec<T>,
}

impl<T, S: FunctorShape> View for Functor<T, S> {
    type V = Seq<T>;

    /// The boxed elements, in order.
    closed spec fn view(&self) -> Seq<T> {
        self.value@
    }
}

impl<A, S: FunctorShape> Functor<A, S> {
    /// Applies `f` to every element in order, keeping the container shape.
    pub fn map<B, F: Fn(A) -> B>(self, f: F) -> (r: Functor<B, S>)
        requires
            forall|i: int| 0 <= i < self@.len() ==> call_requires(f, (self@[i],)),
        ensures
            r@.len() == self@.len(),
            forall|i: int| 0 <= i < self@.len() ==> call_ensures(f, (self@[i],), #[trigger] r@[i]),
    {
        let ghost orig: Seq<A> = self@;
        let mut v = self.value;
        let mut out: Vec<B> = Vec::new();
        while v.len() > 0
            invariant
                out@.len() + v@.len() == orig.len(),
                v@ == orig.skip(out@.len() as int),
                forall|i: int| 0 <= i < orig.len() ==> call_requires(f, (orig[i],)),
                forall|i: int| 0 <= i < out@.len() ==> call_ensures(f, (orig[i],), #[trigger] out@[i]),
            decreases v@.len(),
        {
            let x = v.remove(0);
            proof {
                assert(x == orig[out@.len() as int]);
            }
            let y = f(x);
            out.push(y);
        }
        Functor { x: self.x, value: out }
    }

    /// Boxes a container of the given shape.
    pub fn new(a: Vec<A>, x: S) -> (r: Functor<A, S>)
        ensures
            r@ == a@,
    {
        Functor { x, value: a }
    }
}

/// The vector shape.
pub struct VecFunctor;

impl FunctorShape for VecFunctor {

}

impl VecFunctor {
    /// Boxes a vector as a [`Functor`] of vector shape.
    pub fn to_functor<T>(a: Vec<T>) -> (r: Functor<T, VecFunctor>)
        ensures
            r@ == a@,
    {
        Functor::new(a, VecFunctor)
    }

    /// Takes the vector back out of a [`Functor`] of vector shape.
    pub fn from_functor<T>(a: Functor<T, VecFunctor>) -> (r: Vec<T>)
        ensures
            r@ == a@,
    {
        a.value
    }
}

} // verus!
