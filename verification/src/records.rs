//! Record and tagged-variant types with their companion views.
//!
//! For a record type `R` the companion view mirrors `R` field for field, each
//! field's type rewritten to a capability-tagged reference to that field; for
//! a tagged-variant type it mirrors every variant the same way. Projection
//! ([`RefAccessors::to_wrapped`]) destructures the borrowed value once and
//! wraps each field borrow with the capability of the whole, so the
//! exclusivity of a field borrow is derived from the language's own borrow
//! rules, never asserted.

use vstd::prelude::*;

use crate::Borrow;
use crate::Capability;
use crate::Ref;
use crate::RefAccessors;
use crate::RefType;
use crate::Shared;
use crate::Unique;

verus! {

/// A one-field record.
pub struct Example {
    pub value: u8,
}

/// The companion view of [`Example`]: the same shape, the field wrapped.
pub struct ExampleRef<'a, S: RefType> {
    pub value: Ref<'a, u8, S>,
}

impl<'a, S: RefType> RefAccessors<ExampleRef<'a, S>> for Ref<'a, Example, S> {
    open spec fn src_wf(self) -> bool {
        self.wf()
    }

    open spec fn wrap_rel(self, w: ExampleRef<'a, S>) -> bool {
        &&& w.value.wf()
        &&& w.value@ == self@.value
    }

    fn to_wrapped(self) -> (w: ExampleRef<'a, S>)
        ensures
            S::is_unique() ==> *final(self.write_ref()) == (Example {
                value: *final(w.value.write_ref()),
            }),
    {
        match self.unwrap_borrow() {
            Borrow::Read(t) => ExampleRef { value: Ref::from_read(&t.value) },
            Borrow::Write(t) => ExampleRef { value: Ref::from_write(&mut t.value) },
        }
    }
}

/// A two-field record, one field of a compound type.
pub struct Foo {
    pub x: i64,
    pub y: Vec<u32>,
}

/// The companion view of [`Foo`].
pub struct FooRef<'a, S: RefType> {
    pub x: Ref<'a, i64, S>,
    pub y: Ref<'a, Vec<u32>, S>,
}

impl<'a, S: RefType> RefAccessors<FooRef<'a, S>> for Ref<'a, Foo, S> {
    open spec fn src_wf(self) -> bool {
        self.wf()
    }

    open spec fn wrap_rel(self, w: FooRef<'a, S>) -> bool {
        &&& w.x.wf()
        &&& w.y.wf()
        &&& w.x@ == self@.x
        &&& w.y@ == self@.y
    }

    fn to_wrapped(self) -> (w: FooRef<'a, S>)
        ensures
            S::is_unique() ==> *final(self.write_ref()) == (Foo {
                x: *final(w.x.write_ref()),
                y: *final(w.y.write_ref()),
            }),
    {
        match self.unwrap_borrow() {
            Borrow::Read(t) => FooRef { x: Ref::from_read(&t.x), y: Ref::from_read(&t.y) },
            Borrow::Write(t) => FooRef {
                x: Ref::from_write(&mut t.x),
                y: Ref::from_write(&mut t.y),
            },
        }
    }
}

/// A record with a generic field: generic parameters of the record are
/// carried through unchanged on its view.
pub struct FooGen<T> {
    pub a: T,
}

/// The companion view of [`FooGen`].
pub struct FooGenRef<'a, T, S: RefType> {
    pub a: Ref<'a, T, S>,
}

impl<'a, T, S: RefType> RefAccessors<FooGenRef<'a, T, S>> for Ref<'a, FooGen<T>, S> {
    open spec fn src_wf(self) -> bool {
        self.wf()
    }

    open spec fn wrap_rel(self, w: FooGenRef<'a, T, S>) -> bool {
        &&& w.a.wf()
        &&& w.a@ == self@.a
    }

    fn to_wrapped(self) -> (w: FooGenRef<'a, T, S>)
        ensures
            S::is_unique() ==> *final(self.write_ref()) == (FooGen {
                a: *final(w.a.write_ref()),
            }),
    {
        match self.unwrap_borrow() {
            Borrow::Read(t) => FooGenRef { a: Ref::from_read(&t.a) },
            Borrow::Write(t) => FooGenRef { a: Ref::from_write(&mut t.a) },
        }
    }
}

/// A tagged-variant type: each variant's payload fields are wrapped the same
/// way a record's fields are, and projection produces the arm that matches
/// the current value.
pub enum Enum<T> {
    Variant { x: u8 },
    OtherVariant { y: T },
}

/// The companion view of [`Enum`].
pub enum EnumRef<'a, T, S: RefType> {
    Variant { x: Ref<'a, u8, S> },
    OtherVariant { y: Ref<'a, T, S> },
}

impl<'a, T, S: RefType> RefAccessors<EnumRef<'a, T, S>> for Ref<'a, Enum<T>, S> {
    open spec fn src_wf(self) -> bool {
        self.wf()
    }

    open spec fn wrap_rel(self, w: EnumRef<'a, T, S>) -> bool {
        match w {
            EnumRef::Variant { x: xr } => {
                &&& self@ matches Enum::Variant { x }
                &&& xr.wf()
                &&& xr@ == x
            },
            EnumRef::OtherVariant { y: yr } => {
                &&& self@ matches Enum::OtherVariant { y }
                &&& yr.wf()
                &&& yr@ == y
            },
        }
    }

    fn to_wrapped(self) -> (w: EnumRef<'a, T, S>)
        ensures
            S::is_unique() ==> match w {
                EnumRef::Variant { x: xr } => *final(self.write_ref()) == (Enum::Variant::<T> {
                    x: *final(xr.write_ref()),
                }),
                EnumRef::OtherVariant { y: yr } => *final(self.write_ref()) == (
                Enum::OtherVariant::<T> { y: *final(yr.write_ref()) }),
            },
    {
        match self.unwrap_borrow() {
            Borrow::Read(t) => match t {
                Enum::Variant { x } => EnumRef::Variant { x: Ref::from_read(x) },
                Enum::OtherVariant { y } => EnumRef::OtherVariant { y: Ref::from_read(y) },
            },
            Borrow::Write(t) => match t {
                Enum::Variant { x } => EnumRef::Variant { x: Ref::from_write(x) },
                Enum::OtherVariant { y } => EnumRef::OtherVariant { y: Ref::from_write(y) },
            },
        }
    }
}

/// Read-projection identity: projecting a reference to a record and reading
/// any field of the view yields exactly the corresponding field of the
/// record's value, whatever the capability.
pub proof fn lemma_read_projection_identity<'a, S: RefType>(
    v: Foo,
    r: Ref<'a, Foo, S>,
    w: FooRef<'a, S>,
)
    requires
        r@ == v,
        r.wrap_rel(w),
    ensures
        w.x@ == v.x,
        w.y@ == v.y,
{
}

/// Write-through: project a `Unique` reference to a record down to one
/// field and recover the exclusive borrow of that field; then whatever is
/// finally written through that borrow is exactly what the record's place
/// finally holds in that field.
pub proof fn lemma_write_through<'a>(
    v0: Example,
    r: Ref<'a, Example, Unique>,
    w: ExampleRef<'a, Unique>,
    m: &'a mut u8,
)
    requires
        r@ == v0,
        *final(r.write_ref()) == (Example { value: *final(w.value.write_ref()) }),
        *final(m) == *final(w.value.write_ref()),
    ensures
        *final(r.write_ref()) == (Example { value: *final(m) }),
{
}

/// Independent `Shared` references to the same record agree: projecting each
/// of three shared references to one value yields field references that all
/// hold the same field value.
pub proof fn lemma_shared_refs_agree<'a, 'b, 'c>(
    v: Foo,
    r1: Ref<'a, Foo, Shared>,
    r2: Ref<'b, Foo, Shared>,
    r3: Ref<'c, Foo, Shared>,
    w1: FooRef<'a, Shared>,
    w2: FooRef<'b, Shared>,
    w3: FooRef<'c, Shared>,
)
    requires
        r1@ == v,
        r2@ == v,
        r3@ == v,
        r1.wrap_rel(w1),
        r2.wrap_rel(w2),
        r3.wrap_rel(w3),
    ensures
        w1.x@ == w2.x@,
        w2.x@ == w3.x@,
        w1.y@ == w2.y@,
        w2.y@ == w3.y@,
{
}

/// Downgrade correctness: a `Shared` reference obtained by downgrading a
/// `Unique` one reads every field exactly as the original `Unique` path
/// read it before the downgrade.
pub proof fn lemma_downgrade_correct<'a, 'b>(
    u: Ref<'a, Example, Unique>,
    s: Ref<'b, Example, Shared>,
    wu: ExampleRef<'a, Unique>,
    ws: ExampleRef<'b, Shared>,
)
    requires
        s@ == u@,
        u.wrap_rel(wu),
        s.wrap_rel(ws),
    ensures
        ws.value@ == wu.value@,
{
}

/// Variant projection: projecting a tagged-variant value yields the view
/// arm that matches the value's own variant, holding references to exactly
/// that variant's payload fields, and never the unrelated arm.
pub proof fn lemma_variant_projection<'a, T, S: RefType>(
    v: Enum<T>,
    r: Ref<'a, Enum<T>, S>,
    w: EnumRef<'a, T, S>,
)
    requires
        r@ == v,
        r.wrap_rel(w),
    ensures
        v matches Enum::Variant { x } ==> (w matches EnumRef::Variant { x: xr } && xr@ == x),
        v matches Enum::OtherVariant { y } ==> (w matches EnumRef::OtherVariant { y: yr } && yr@
            == y),
{
}

} // verus!
