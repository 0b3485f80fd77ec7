use ref_clone::records::Enum;
use ref_clone::records::EnumRef;
use ref_clone::records::Example;
use ref_clone::records::Foo;
use ref_clone::Ref;
use ref_clone::RefAccessors;
use ref_clone::RefFn;
use ref_clone::RefType;
use ref_clone::Shared;
use ref_clone::Unique;

fn get_foo_child<S: RefType>(a: Ref<'_, Foo, S>) -> Ref<'_, i64, S> {
    a.to_wrapped().x
}

fn get_foo_vec_child<S: RefType>(a: Ref<'_, Foo, S>) -> Ref<'_, Vec<u32>, S> {
    a.to_wrapped().y
}

#[test]
fn test() {
    let foo = Foo { x: 10, y: vec![3] };
    let r = Shared::new(&foo);
    assert_eq!(*get_foo_child(r).as_ref(), 10);
}

#[test]
fn test_mut() {
    let mut foo = Foo { x: 13, y: vec![3] };
    let r = Unique::new(&mut foo);
    assert_eq!(*get_foo_child(r).as_ref(), 13);
}

#[test]
fn test_two() {
    let foo = Foo { x: 13, y: vec![3] };
    let r = Shared::new(&foo);
    let r2 = Shared::new(&foo);
    let r3 = Shared::new(&foo);
    assert_eq!(*get_foo_child(r).as_ref(), 13);
    assert_eq!(*get_foo_child(r2).as_ref(), 13);
    assert_eq!(*get_foo_child(r3).as_ref(), 13);
}

#[test]
fn test_vec() {
    let mut foo = Foo { x: 13, y: vec![3] };
    assert_eq!(get_foo_vec_child(Unique::new(&mut foo)).as_mut()[0], 3);
}

fn shared_fn<F: Fn(&u8) -> &u8>(f: F) -> F {
    f
}

fn unique_fn<F: Fn(&mut u8) -> &mut u8>(f: F) -> F {
    f
}

#[test]
fn branch() {
    let f1 = shared_fn(|a| a);
    let f2 = unique_fn(|a| {
        *a += 1;
        a
    });
    assert_eq!(
        RefFn::<_, _, u8, _>::new(f1, f2).ap(Ref::new(&10)),
        Ref::new(&10)
    );
    assert_eq!(
        RefFn::<_, _, u8, _>::new(f1, f2).ap(Ref::new(&mut 10)),
        Ref::new(&mut 11)
    );
}

fn get_example_value<'a, T: RefType>(x: Ref<'a, Example, T>) -> Ref<'a, u8, T> {
    let x = x.to_wrapped();
    x.value
}

#[test]
fn main() {
    let mut ex = Example { value: 8 };
    {
        let ex_ref = Shared::new(&ex);
        println!("{}", *get_example_value(ex_ref).as_ref()); // = 8
    }
    {
        let ex_mut = Unique::new(&mut ex);
        *get_example_value(ex_mut).as_mut() = 1;
    }
    println!("{}", ex.value); // = 1
    {
        let ex_ref = Shared::new(&ex);
        println!("{}", *get_example_value(ex_ref).as_ref()); // = 1
    }
}

#[test]
fn write_through_observed_by_shared() {
    let mut ex = Example { value: 8 };
    {
        let ex_mut = Unique::new(&mut ex);
        *get_example_value(ex_mut).as_mut() = 1;
    }
    let ex_ref = Shared::new(&ex);
    assert_eq!(*get_example_value(ex_ref).as_ref(), 1);
    assert_eq!(ex.value, 1);
}

#[test]
fn downgrade_reads_like_unique() {
    let mut ex = Example { value: 42 };
    let before = {
        let u = Unique::new(&mut ex);
        u.as_ref().value
    };
    let shared = {
        let u = Unique::new(&mut ex);
        let s = u.downgrade();
        *get_example_value(s).as_ref()
    };
    assert_eq!(before, 42);
    assert_eq!(shared, 42);
}

#[test]
fn variant_projection_matching_arm() {
    let e: Enum<i64> = Enum::OtherVariant { y: 7 };
    let r = Shared::new(&e);
    match r.to_wrapped() {
        EnumRef::OtherVariant { y } => assert_eq!(*y.as_ref(), 7),
        EnumRef::Variant { .. } => panic!("projection produced the unrelated arm"),
    }
    let mut e2: Enum<i64> = Enum::Variant { x: 3 };
    let r2 = Unique::new(&mut e2);
    match r2.to_wrapped() {
        EnumRef::Variant { x } => {
            *x.as_mut() = 4;
        }
        EnumRef::OtherVariant { .. } => panic!("projection produced the unrelated arm"),
    }
    assert!(matches!(e2, Enum::Variant { x: 4 }));
}
