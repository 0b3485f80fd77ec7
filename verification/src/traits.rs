//! Projection of capability-tagged references through indirections and into
//! homogeneous sequences.
//!
//! [`DerefRef`] projects a reference to a pointer-like value into a reference
//! to its target; [`IndexRef`] projects a reference to a sequence into a
//! reference to one element; [`IntoIteratorRef`] projects it into a lazy,
//! position-ordered sequence of element references ([`RefIter`]). All of them
//! keep the capability of the whole on every part they hand out.

use vstd::prelude::*;

use core::marker::PhantomData;

use crate::Borrow;
use crate::Capability;
use crate::Ref;
use crate::Shared;
use crate::Unique;

verus! {

broadcast use vstd::array::group_array_axioms;

/// Projection through an owning indirection: a reference to the box becomes
/// a reference to the boxed value, with the capability kept.
pub trait DerefRef: Sized {
    type Target;

    /// The value behind the indirection.
    spec fn target_of(s: Self) -> Self::Target;

    /// `s` with the value behind the indirection replaced by `t`.
    spec fn with_target(s: Self, t: Self::Target) -> Self;

    fn deref_ref<'a, S: Capability>(r: Ref<'a, Self, S>) -> (out: Ref<'a, Self::Target, S>)
        requires
            r.wf(),
        ensures
            out.wf(),
            out@ == Self::target_of(r@),
            S::is_unique() ==> *final(r.write_ref()) == Self::with_target(
                r@,
                *final(out.write_ref()),
            ),
    ;
}

impl<T> DerefRef for Box<T> {
    type Target = T;

    open spec fn target_of(s: Self) -> T {
        *s
    }

    open spec fn with_target(s: Self, t: T) -> Self {
        Box::new(t)
    }

    fn deref_ref<'a, S: Capability>(r: Ref<'a, Self, S>) -> (out: Ref<'a, T, S>) {
        match r.unwrap_borrow() {
            Borrow::Read(t) => Ref::from_read(&**t),
            Borrow::Write(t) => Ref::from_write(&mut **t),
        }
    }
}

/// Projection into one element of a homogeneous sequence: a reference to the
/// whole becomes a reference to the element at a given position, with the
/// capability kept.
pub trait IndexRef<Idx>: Sized {
    type Output;

    /// Whether `i` is a valid position in `s`.
    spec fn valid_index(s: Self, i: Idx) -> bool;

    /// The element of `s` at position `i`.
    spec fn at_index(s: Self, i: Idx) -> Self::Output;

    /// Whether `t` is `s` with the element at position `i` replaced by `v`
    /// and nothing else changed.
    spec fn updated(s: Self, i: Idx, v: Self::Output, t: Self) -> bool;

    fn index_ref<'a, S: Capability>(r: Ref<'a, Self, S>, index: Idx) -> (out: Ref<
        'a,
        Self::Output,
        S,
    >)
        requires
            r.wf(),
            Self::valid_index(r@, index),
        ensures
            out.wf(),
            out@ == Self::at_index(r@, index),
            S::is_unique() ==> Self::updated(r@, index, *final(out.write_ref()), *final(r.write_ref())),
    ;
}

impl<T, const N: usize> IndexRef<usize> for [T; N] {
    type Output = T;

    open spec fn valid_index(s: Self, i: usize) -> bool {
        i < N
    }

    open spec fn at_index(s: Self, i: usize) -> T {
        s@[i as int]
    }

    open spec fn updated(s: Self, i: usize, v: T, t: Self) -> bool {
        t@ == s@.update(i as int, v)
    }

    fn index_ref<'a, S: Capability>(r: Ref<'a, Self, S>, index: usize) -> (out: Ref<'a, T, S>) {
        match r.unwrap_borrow() {
            Borrow::Read(t) => Ref::from_read(vstd::slice::slice_index_get(t.as_slice(), index)),
            Borrow::Write(t) => {
                let s = vstd::array::ref_mut_array_unsizing_coercion(t);
                let (_left, right) = s.split_at_mut(index);
                let elem = right.first_mut().unwrap();
                let out = Ref::from_write(elem);
                proof {
                    assert((*final(r.write_ref()))@ =~= r@@.update(index as int, *final(out.write_ref())));
                }
                out
            },
        }
    }
}

impl<T> IndexRef<usize> for Vec<T> {
    type Output = T;

    open spec fn valid_index(s: Self, i: usize) -> bool {
        i < s@.len()
    }

    open spec fn at_index(s: Self, i: usize) -> T {
        s@[i as int]
    }

    open spec fn updated(s: Self, i: usize, v: T, t: Self) -> bool {
        t@ == s@.update(i as int, v)
    }

    fn index_ref<'a, S: Capability>(r: Ref<'a, Self, S>, index: usize) -> (out: Ref<'a, T, S>) {
        match r.unwrap_borrow() {
            Borrow::Read(t) => Ref::from_read(vstd::slice::slice_index_get(t.as_slice(), index)),
            Borrow::Write(t) => {
                let s = Vec::as_mut_slice(t);
                let (_left, right) = s.split_at_mut(index);
                let elem = right.first_mut().unwrap();
                let out = Ref::from_write(elem);
                proof {
                    assert((*final(r.write_ref()))@ =~= r@@.update(index as int, *final(out.write_ref())));
                }
                out
            },
        }
    }
}

/// The borrow of a whole slice that a [`RefIter`] still has to hand out.
enum SliceBorrow<'a, T> {
    Read(&'a [T]),
    Write(&'a mut [T]),
}

impl<'a, T> SliceBorrow<'a, T> {
    /// The elements currently stored in the remaining slice.
    spec fn cur_seq(self) -> Seq<T> {
        match self {
            SliceBorrow::Read(t) => t@,
            SliceBorrow::Write(t) => t@,
        }
    }

    /// Whether this is the exclusive form.
    spec fn is_write(self) -> bool {
        self matches SliceBorrow::Write(_)
    }
}

/// A lazy, position-ordered, finite sequence of capability-tagged element
/// references: each call of [`RefIter::next`] derives the next element
/// reference from the underlying storage on demand.
pub struct RefIter<'a, T, S: Capability> {
    rem: SliceBorrow<'a, T>,
    ty: PhantomData<S>,
}

impl<'a, T, S: Capability> RefIter<'a, T, S> {
    /// The capability tag agrees with the form of the remaining borrow.
    pub closed spec fn wf(self) -> bool {
        self.rem.is_write() == S::is_unique()
    }

    /// The elements not yet handed out, in positional order.
    pub closed spec fn remaining(self) -> Seq<T> {
        self.rem.cur_seq()
    }

    /// The exclusive borrow of the remaining elements, where the capability
    /// is `Unique`.
    pub closed spec fn write_slice(self) -> &'a mut [T] {
        self.rem->Write_0
    }

    /// Hands out a reference to the next element, or `None` at the end of
    /// the sequence. For an exclusive iteration, whatever is finally written
    /// through the element reference, followed by whatever the rest of the
    /// iteration writes, is what the remaining storage finally holds.
    pub fn next(&mut self) -> (r: Option<Ref<'a, T, S>>)
        requires
            old(self).wf(),
        ensures
            final(self).wf(),
            old(self).remaining().len() == 0 ==> r is None,
            old(self).remaining().len() == 0 ==> final(self).remaining() == old(self).remaining(),
            old(self).remaining().len() == 0 && S::is_unique() ==> final(old(self).write_slice())@ == final(final(self).write_slice())@,
            old(self).remaining().len() > 0 ==> (r matches Some(q) && q.wf() && q@ == old(self).remaining()[0]),
            old(self).remaining().len() > 0 ==> final(self).remaining() == old(self).remaining().skip(1),
            old(self).remaining().len() > 0 && S::is_unique() ==> final(old(self).write_slice())@ == seq![*final(r.unwrap().write_ref())] + final(final(self).write_slice())@,
    {
        let mut taken: SliceBorrow<'a, T> = SliceBorrow::Read(&[]);
        core::mem::swap(&mut self.rem, &mut taken);
        match taken {
            SliceBorrow::Read(s) => {
                if s.len() == 0 {
                    self.rem = SliceBorrow::Read(s);
                    None
                } else {
                    let elem = vstd::slice::slice_index_get(s, 0);
                    let (_left, right) = s.split_at(1);
                    self.rem = SliceBorrow::Read(right);
                    Some(Ref::from_read(elem))
                }
            },
            SliceBorrow::Write(s) => {
                if s.len() == 0 {
                    self.rem = SliceBorrow::Write(s);
                    None
                } else {
                    let (left, right) = s.split_at_mut(1);
                    let elem = left.first_mut().unwrap();
                    self.rem = SliceBorrow::Write(right);
                    Some(Ref::from_write(elem))
                }
            },
        }
    }
}

/// Projection of a reference to a whole homogeneous sequence into the lazy
/// sequence of its element references, the capability kept on every element.
pub trait IntoIteratorRef<'a>: Sized {
    type Item;

    /// The elements of `s`, in positional order.
    spec fn elems(s: Self) -> Seq<Self::Item>;

    /// Starts the lazy element sequence. For an exclusive projection, what
    /// the underlying sequence finally holds is exactly what is finally
    /// written through the iteration.
    fn into_iter_ref<S: Capability>(r: Ref<'a, Self, S>) -> (it: RefIter<'a, Self::Item, S>)
        requires
            r.wf(),
        ensures
            it.wf(),
            it.remaining() == Self::elems(r@),
            S::is_unique() ==> Self::elems(*final(r.write_ref())) == final(it.write_slice())@,
    ;

    /// The element sequence of a read-only borrow, as plain shared borrows.
    fn iter(&'a self) -> (it: RefIterator<'a, Self::Item, Shared>)
        ensures
            it.wf(),
            it.remaining() == Self::elems(*self),
    {
        RefIterator { inner: Self::into_iter_ref(Shared::new(self)) }
    }

    /// The element sequence of an exclusive borrow, as plain exclusive
    /// borrows.
    fn iter_mut(&'a mut self) -> (it: RefIterator<'a, Self::Item, Unique>)
        ensures
            it.wf(),
            it.remaining() == Self::elems(*old(self)),
            Self::elems(*final(self)) == final(it.write_slice())@,
    {
        RefIterator { inner: Self::into_iter_ref(Unique::new(self)) }
    }
}

impl<'a, T: 'a, const N: usize> IntoIteratorRef<'a> for [T; N] {
    type Item = T;

    open spec fn elems(s: Self) -> Seq<T> {
        s@
    }

    fn into_iter_ref<S: Capability>(r: Ref<'a, Self, S>) -> (it: RefIter<'a, T, S>) {
        match r.unwrap_borrow() {
            Borrow::Read(t) => RefIter { rem: SliceBorrow::Read(t.as_slice()), ty: PhantomData },
            Borrow::Write(t) => {
                let s = vstd::array::ref_mut_array_unsizing_coercion(t);
                RefIter { rem: SliceBorrow::Write(s), ty: PhantomData }
            },
        }
    }
}

impl<'a, T: 'a> IntoIteratorRef<'a> for Vec<T> {
    type Item = T;

    open spec fn elems(s: Self) -> Seq<T> {
        s@
    }

    fn into_iter_ref<S: Capability>(r: Ref<'a, Self, S>) -> (it: RefIter<'a, T, S>) {
        match r.unwrap_borrow() {
            Borrow::Read(t) => RefIter { rem: SliceBorrow::Read(t.as_slice()), ty: PhantomData },
            Borrow::Write(t) => {
                let s = Vec::as_mut_slice(t);
                RefIter { rem: SliceBorrow::Write(s), ty: PhantomData }
            },
        }
    }
}

/// A [`RefIter`] unwrapped to plain borrows: a `Shared` iteration hands out
/// `&T`, a `Unique` iteration hands out `&mut T`.
pub struct RefIterator<'a, T, S: Capability> {
    inner: RefIter<'a, T, S>,
}

impl<'a, T, S: Capability> RefIterator<'a, T, S> {
    /// The capability tag agrees with the form of the remaining borrow.
    pub closed spec fn wf(self) -> bool {
        self.inner.wf()
    }

    /// The elements not yet handed out, in positional order.
    pub closed spec fn remaining(self) -> Seq<T> {
        self.inner.remaining()
    }

    /// The exclusive borrow of the remaining elements, where the capability
    /// is `Unique`.
    pub closed spec fn write_slice(self) -> &'a mut [T] {
        self.inner.write_slice()
    }
}

impl<'a, T> RefIterator<'a, T, Shared> {
    /// Hands out a shared borrow of the next element, or `None` at the end
    /// of the sequence.
    pub fn next(&mut self) -> (r: Option<&'a T>)
        requires
            old(self).wf(),
        ensures
            final(self).wf(),
            old(self).remaining().len() == 0 ==> r is None && final(self).remaining() == old(self).remaining(),
            old(self).remaining().len() > 0 ==> (r matches Some(t) && *t == old(self).remaining()[0]),
            old(self).remaining().len() > 0 ==> final(self).remaining() == old(self).remaining().skip(1),
    {
        match self.inner.next() {
            Some(x) => match x.unwrap_borrow() {
                Borrow::Read(t) => Some(t),
                Borrow::Write(_) => vstd::pervasive::unreached(),
            },
            None => None,
        }
    }
}

impl<'a, T> RefIterator<'a, T, Unique> {
    /// Hands out an exclusive borrow of the next element, or `None` at the
    /// end of the sequence.
    pub fn next(&mut self) -> (r: Option<&'a mut T>)
        requires
            old(self).wf(),
        ensures
            final(self).wf(),
            old(self).remaining().len() == 0 ==> r is None && final(self).remaining() == old(self).remaining(),
            old(self).remaining().len() == 0 ==> final(old(self).write_slice())@ == final(final(self).write_slice())@,
            old(self).remaining().len() > 0 ==> (r matches Some(t) && *t == old(self).remaining()[0]),
            old(self).remaining().len() > 0 ==> final(self).remaining() == old(self).remaining().skip(1),
            old(self).remaining().len() > 0 ==> final(old(self).write_slice())@ == seq![*final(r.unwrap())] + final(final(self).write_slice())@,
    {
        match self.inner.next() {
            Some(x) => Some(x.as_mut()),
            None => None,
        }
    }
}

} // verus!
