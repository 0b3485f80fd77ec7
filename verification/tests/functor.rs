use ref_clone::functor::Functor;
use ref_clone::functor::VecFunctor;

#[test]
fn test_functor() {
    let func = VecFunctor::to_functor(vec![1, 2, 3, 4]);
    let b = func.map(|x| x.to_string());
    println!("{:?}", VecFunctor::from_functor(b));
}

#[test]
fn map_applies_in_order() {
    let func = VecFunctor::to_functor(vec![1, 2, 3]);
    let b = func.map(|x| x + 1);
    assert_eq!(VecFunctor::from_functor(b), vec![2, 3, 4]);
}

#[test]
fn round_trip_returns_the_vector() {
    let v = vec![9u8, 8, 7];
    let func = VecFunctor::to_functor(v.clone());
    assert_eq!(VecFunctor::from_functor(func), v);
}

#[test]
fn map_on_empty_stays_empty() {
    let func = Functor::new(Vec::<u8>::new(), VecFunctor);
    let b = func.map(|x| x as u16);
    assert_eq!(VecFunctor::from_functor(b), Vec::<u16>::new());
}
