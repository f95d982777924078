use std::fmt::Display;

#[test]
fn dyn_dispatch() {
    let mut v: Vec<&dyn Display> = vec![];
    v.push(&true);
    v.push(&1i32);
    assert_eq!(v.len(), 2);

    fn stringify(t: Box<dyn ToString>) -> String {
        t.to_string()
    }
    assert_eq!(stringify(Box::new(5u8)), "5");
}

#[test]
fn impl_trait() {
    fn to_n(n: i32) -> impl Iterator<Item = i32> {
        0..n
    }
    assert_eq!(to_n(4).count(), 4);

    fn to_n_even(n: i32) -> impl Iterator<Item = i32> {
        (0..n).filter(|i| i % 2 == 0)
    }
    assert_eq!(to_n_even(5).count(), 3);

    fn gen_counter_trait_object(init: i32) -> Box<dyn FnMut() -> i32> {
        let mut n = init;
        Box::new(move || {
            let ret = n;
            n += 1;
            ret
        })
    }
    fn gen_counter_impl_trait(init: i32) -> impl FnMut() -> i32 {
        let mut n = init;
        move || {
            let ret = n;
            n += 1;
            ret
        }
    }
    let mut to1 = gen_counter_trait_object(1);
    assert_eq!(1, to1());
    assert_eq!(2, to1());
    let mut to2 = gen_counter_impl_trait(1);
    assert_eq!(1, to2());
    assert_eq!(2, to2());
}
