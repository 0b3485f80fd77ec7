use ref_clone::DerefRef;
use ref_clone::IndexRef;
use ref_clone::IntoIteratorRef;
use ref_clone::Ref;
use ref_clone::Shared;
use ref_clone::Unique;

#[test]
fn test_array() {
    let foo = Ref::new(&[1, 2, 3]);
    let mut iter = <[i32; 3]>::into_iter_ref(foo);
    assert_eq!(iter.next(), Some(Ref::new(&1)));
    assert_eq!(iter.next(), Some(Ref::new(&2)));
    assert_eq!(iter.next(), Some(Ref::new(&3)));
    assert_eq!(iter.next(), None);
}

#[test]
fn unique_array_projection_writes_back() {
    let mut a = [3];
    {
        let r = Unique::new(&mut a);
        let mut iter = <[i32; 1]>::into_iter_ref(r);
        let elem = iter.next().unwrap();
        *elem.as_mut() = 7;
        assert_eq!(iter.next(), None);
    }
    assert_eq!(a[0], 7);
}

#[test]
fn index_ref_shared() {
    let a = [1, 2, 3];
    let r = Shared::new(&a);
    let e = <[i32; 3]>::index_ref(r, 1);
    assert_eq!(*e.as_ref(), 2);
}

#[test]
fn index_ref_unique_writes_back() {
    let mut a = [10, 20, 30];
    {
        let r = Unique::new(&mut a);
        let e = <[i32; 3]>::index_ref(r, 2);
        *e.as_mut() = 33;
    }
    assert_eq!(a, [10, 20, 33]);
}

#[test]
fn vec_index_ref_unique_writes_back() {
    let mut v = vec![1u8, 2, 3];
    {
        let r = Unique::new(&mut v);
        let e = Vec::index_ref(r, 0);
        *e.as_mut() = 9;
    }
    assert_eq!(v, vec![9u8, 2, 3]);
}

#[test]
fn vec_projection() {
    let v = vec![4u8, 5, 6];
    let r = Shared::new(&v);
    let mut iter = Vec::into_iter_ref(r);
    assert_eq!(iter.next(), Some(Ref::new(&4u8)));
    assert_eq!(iter.next(), Some(Ref::new(&5u8)));
    assert_eq!(iter.next(), Some(Ref::new(&6u8)));
    assert_eq!(iter.next(), None);
}

#[test]
fn iter_hands_out_plain_borrows() {
    let a = [7, 8];
    let mut it = IntoIteratorRef::iter(&a);
    assert_eq!(it.next(), Some(&7));
    assert_eq!(it.next(), Some(&8));
    assert_eq!(it.next(), None);
}

#[test]
fn iter_mut_hands_out_exclusive_borrows() {
    let mut a = [1, 2];
    {
        let mut it = IntoIteratorRef::iter_mut(&mut a);
        while let Some(x) = it.next() {
            *x += 10;
        }
    }
    assert_eq!(a, [11, 12]);
}

#[test]
fn deref_ref_shared() {
    let b = Box::new(5u8);
    let r = Shared::new(&b);
    let inner = Box::deref_ref(r);
    assert_eq!(*inner.as_ref(), 5);
}

#[test]
fn deref_ref_unique_writes_back() {
    let mut b = Box::new(5u8);
    {
        let r = Unique::new(&mut b);
        let inner = Box::deref_ref(r);
        *inner.as_mut() = 9;
    }
    assert_eq!(*b, 9);
}
