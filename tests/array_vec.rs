use arrayvec::ArrayVec;

#[test]
fn full_vector_converts_to_array() {
    let mut v: ArrayVec<i32, 3> = ArrayVec::new();
    assert!(v.push(1).is_ok());
    assert!(v.push(2).is_ok());
    assert!(v.push(3).is_ok());
    match v.into_inner() {
        Ok(a) => assert_eq!(a, [1, 2, 3]),
        Err(_) => panic!("a full vector must convert"),
    }
}

#[test]
fn partial_vector_gives_underfilled_error() {
    let mut v: ArrayVec<i32, 3> = ArrayVec::new();
    assert!(v.push(1).is_ok());
    assert!(v.push(2).is_ok());
    match v.into_inner() {
        Ok(_) => panic!("a partial vector must not convert"),
        Err(e) => {
            assert_eq!(e.to_string(), "capacity is not filled: expected 3, got 2");
            let w = e.take_vec();
            assert_eq!(w.as_slice(), &[1, 2]);
            assert_eq!(w.len(), 2);
        }
    }
}

#[test]
fn empty_vector_gives_underfilled_error() {
    let v: ArrayVec<i32, 2> = ArrayVec::new();
    match v.into_inner() {
        Ok(_) => panic!("an empty vector must not convert"),
        Err(e) => assert!(e.take_vec().is_empty()),
    }
}

#[test]
fn zero_capacity_converts_when_empty() {
    let v: ArrayVec<i32, 0> = ArrayVec::new();
    assert!(v.is_full());
    match v.into_inner() {
        Ok(a) => assert_eq!(a.len(), 0),
        Err(_) => panic!("an empty vector of capacity zero is full"),
    }
}

#[test]
fn push_on_full_vector_returns_element() {
    let mut v: ArrayVec<i32, 2> = ArrayVec::new();
    assert!(v.push(10).is_ok());
    assert!(v.push(20).is_ok());
    let before = v.clone();
    match v.push(30) {
        Ok(()) => panic!("a full vector must refuse"),
        Err(e) => assert_eq!(e.element(), 30),
    }
    assert_eq!(v.as_slice(), &[10, 20]);
    assert_eq!(v, before);
    assert_eq!(v.len(), 2);
}

#[test]
fn push_on_zero_capacity_is_refused() {
    let mut v: ArrayVec<String, 0> = ArrayVec::new();
    match v.push(String::from("a")) {
        Ok(()) => panic!("nothing fits"),
        Err(e) => assert_eq!(e.element(), "a"),
    }
    assert!(v.is_empty());
}

#[test]
fn capacity_and_fullness() {
    let mut v: ArrayVec<u8, 2> = ArrayVec::new();
    assert_eq!(v.capacity(), 2);
    assert!(v.is_empty());
    assert!(!v.is_full());
    assert!(v.push(1).is_ok());
    assert!(!v.is_empty());
    assert!(!v.is_full());
    assert!(v.push(2).is_ok());
    assert!(v.is_full());
}

#[test]
fn try_extend_all_or_nothing() {
    let mut v: ArrayVec<u8, 4> = ArrayVec::new();
    assert!(v.try_extend(vec![1, 2, 3]).is_ok());
    assert_eq!(v.as_slice(), &[1, 2, 3]);
    match v.try_extend(vec![4, 5]) {
        Ok(()) => panic!("two more do not fit"),
        Err(e) => assert_eq!(e.element(), vec![4, 5]),
    }
    assert_eq!(v.as_slice(), &[1, 2, 3]);
    assert!(v.try_extend(vec![4]).is_ok());
    assert_eq!(v.as_slice(), &[1, 2, 3, 4]);
    assert!(v.try_extend(Vec::new()).is_ok());
    assert!(v.is_full());
}

#[test]
fn pop_and_truncate() {
    let mut v: ArrayVec<u8, 4> = ArrayVec::new();
    assert_eq!(v.pop(), None);
    assert!(v.try_extend(vec![1, 2, 3, 4]).is_ok());
    assert_eq!(v.pop(), Some(4));
    assert_eq!(v.as_slice(), &[1, 2, 3]);
    v.truncate(5);
    assert_eq!(v.as_slice(), &[1, 2, 3]);
    v.truncate(1);
    assert_eq!(v.as_slice(), &[1]);
    v.truncate(0);
    assert!(v.is_empty());
    assert!(v.push(7).is_ok());
    assert_eq!(v.as_slice(), &[7]);
}
