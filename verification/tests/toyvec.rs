use onigmo::toyvec::ToyVec;

#[test]
fn run_basic() {
    let mut v = ToyVec::new();
    v.push("Java Finch".to_string());
    v.push("Budferifar".to_string());
    let e = v.get(1);
    assert_eq!(Some(&"Budferifar".to_string()), e);
}

#[test]
fn run_long_lifetime() {
    let _e: Option<&String>;
    {
        let mut v = ToyVec::new();
        v.push("Java Finch".to_string());
        v.push("Budferifar".to_string());

        // a borrow taken from `v` could not leave this block
    }
}

#[test]
fn run_iter_lifetime() {
    {
        let mut v = ToyVec::new();
        v.push("Java Finch".to_string());
        v.push("Budferifar".to_string());
        let mut iter = v.iter();

        assert_eq!(Some(&"Java Finch".to_string()), iter.next());
        v.push("Canary".to_string());
    }
}

#[test]
fn run_into_iter() {
    {
        let mut v = ToyVec::new();
        v.push("Java Finch".to_string());
        v.push("Budferifar".to_string());
        let mut iter = v.iter();
        while let Some(msg) = iter.next() {
            println!("{:?}", msg);
        }
    }
}

#[test]
fn capacity_doubles_when_full() {
    let mut v: ToyVec<u32> = ToyVec::new();
    assert_eq!(v.len(), 0);
    assert_eq!(v.capacity(), 0);
    v.push(1);
    assert_eq!(v.capacity(), 1);
    v.push(2);
    assert_eq!(v.capacity(), 2);
    v.push(3);
    assert_eq!(v.capacity(), 4);
    v.push(4);
    v.push(5);
    assert_eq!(v.capacity(), 8);
    assert_eq!(v.len(), 5);

    let mut w: ToyVec<u32> = ToyVec::with_capacity(3);
    assert_eq!(w.capacity(), 3);
    w.push(9);
    assert_eq!(w.capacity(), 3);
}

#[test]
fn pop_returns_last_in_and_keeps_capacity() {
    let mut v = ToyVec::new();
    assert_eq!(v.pop(), None);
    v.push(10u32);
    v.push(20u32);
    let cap = v.capacity();
    assert_eq!(v.pop(), Some(20));
    assert_eq!(v.pop(), Some(10));
    assert_eq!(v.pop(), None);
    assert_eq!(v.capacity(), cap);
}

#[test]
fn get_or_falls_back_to_default() {
    let mut v = ToyVec::new();
    v.push(7u32);
    let d = 42u32;
    assert_eq!(*v.get_or(0, &d), 7);
    assert_eq!(*v.get_or(5, &d), 42);
}

#[test]
fn grow_keeps_elements() {
    let mut v = ToyVec::new();
    v.push(1u8);
    v.push(2u8);
    v.grow();
    assert_eq!(v.len(), 2);
    assert_eq!(v.get(0), Some(&1u8));
    assert_eq!(v.get(1), Some(&2u8));
}

#[test]
fn iter_is_exhausted_after_limit() {
    let mut v = ToyVec::new();
    v.push('a');
    v.push('b');
    let mut it = v.iter();
    assert_eq!(it.next(), Some(&'a'));
    assert_eq!(it.next(), Some(&'b'));
    assert_eq!(it.next(), None);
    assert_eq!(it.next(), None);
}
