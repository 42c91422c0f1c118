use typed_state::{Duo, First, Second, State};

type Bag = Duo<i64, String>;

#[test]
fn put_then_has_and_borrow() {
    let mut s = State::<Bag>::new();
    s.put(First(42i64));
    assert!(s.has::<First<i64>>());
    let b = s.try_borrow::<First<i64>>();
    assert!(b.is_some());
    assert_eq!(b.unwrap().0, 42);
}

#[test]
fn empty_store_absent() {
    let mut s = State::<Bag>::new();
    assert!(!s.has::<First<i64>>());
    assert!(!s.has::<Second<String>>());
    assert!(s.try_borrow::<First<i64>>().is_none());
    assert!(s.try_borrow::<Second<String>>().is_none());
    assert!(s.try_borrow_mut::<First<i64>>().is_none());
    assert!(s.try_take::<First<i64>>().is_none());
}

#[test]
fn default_is_empty() {
    let s = State::<Bag>::default();
    assert!(!s.has::<First<i64>>());
    assert!(s.try_borrow::<Second<String>>().is_none());
}

#[test]
fn put_replaces_same_type() {
    let mut s = State::<Bag>::new();
    s.put(First(1i64));
    s.put(First(2i64));
    assert_eq!(s.try_borrow::<First<i64>>().unwrap().0, 2);
    let taken = s.try_take::<First<i64>>();
    assert_eq!(taken.unwrap().0, 2);
    assert!(s.try_take::<First<i64>>().is_none());
}

#[test]
fn distinct_types_isolated() {
    let mut s = State::<Bag>::new();
    s.put(First(10i64));
    s.put(Second(String::from("ten")));
    assert!(s.has::<First<i64>>());
    assert!(s.has::<Second<String>>());
    assert_eq!(s.try_borrow::<First<i64>>().unwrap().0, 10);
    assert_eq!(s.try_borrow::<Second<String>>().unwrap().0, "ten");

    let mut r = State::<Bag>::new();
    r.put(Second(String::from("ten")));
    r.put(First(10i64));
    assert_eq!(r.try_borrow::<First<i64>>().unwrap().0, 10);
    assert_eq!(r.try_borrow::<Second<String>>().unwrap().0, "ten");
}

#[test]
fn replacement_leaves_other_type_alone() {
    let mut s = State::<Bag>::new();
    s.put(First(1i64));
    s.put(Second(String::from("a")));
    s.put(First(2i64));
    assert_eq!(s.try_borrow::<First<i64>>().unwrap().0, 2);
    assert_eq!(s.try_borrow::<Second<String>>().unwrap().0, "a");
}

#[test]
fn take_removes() {
    let mut s = State::<Bag>::new();
    s.put(First(5i64));
    let v = s.take::<First<i64>>();
    assert_eq!(v.0, 5);
    assert!(!s.has::<First<i64>>());
    assert!(s.try_take::<First<i64>>().is_none());
}

#[test]
fn queries_idempotent() {
    let mut s = State::<Bag>::new();
    s.put(First(9i64));
    assert_eq!(s.has::<First<i64>>(), s.has::<First<i64>>());
    assert_eq!(s.has::<Second<String>>(), s.has::<Second<String>>());
    let a = s.try_borrow::<First<i64>>().map(|t| t.0);
    let b = s.try_borrow::<First<i64>>().map(|t| t.0);
    assert_eq!(a, b);
}

#[test]
fn borrow_and_borrow_mut() {
    let mut s = State::<Bag>::new();
    s.put(Second(String::from("before")));
    assert_eq!(s.borrow::<Second<String>>().0, "before");
    let m = s.borrow_mut::<Second<String>>();
    m.0 = String::from("after");
    assert_eq!(s.borrow::<Second<String>>().0, "after");
}

#[test]
fn try_borrow_mut_mutates() {
    let mut s = State::<Bag>::new();
    s.put(First(1i64));
    match s.try_borrow_mut::<First<i64>>() {
        Some(t) => t.0 = 100,
        None => panic!("entry must be present"),
    }
    assert_eq!(s.try_borrow::<First<i64>>().unwrap().0, 100);
    assert!(s.has::<First<i64>>());
}

#[test]
fn scenario_pipeline() {
    let mut s = State::<Bag>::new();
    s.put(First(42i64));
    s.put(Second(String::from("x")));
    assert!(s.has::<First<i64>>());
    assert_eq!(s.borrow::<Second<String>>().0, "x");
    assert_eq!(s.take::<First<i64>>().0, 42);
    assert!(!s.has::<First<i64>>());
    assert!(s.has::<Second<String>>());
}
