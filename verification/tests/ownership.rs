use onigmo::ownership::{Child, CloneableChild, CloneableParent, Parent};
use std::collections::HashMap;

#[test]
fn value_scope() {
    let p1 = Parent(1, Child(11), Child(12));
    {
        let p2 = Parent(2, Child(21), Child(22));
        println!("(a) p1: {:?}, p2: {:?}", p1, p2);
    }
    println!("(a) p1: {:?}", p1);
}

#[test]
fn move_semantics() {
    let mut p1 = Parent(1, Child(11), Child(12));
    let p2 = p1;
    assert_eq!(1, p2.0);

    p1 = Parent(2, Child(21), Child(22));
    assert_eq!(2, p1.0);
}

#[test]
fn copy_cemantics() {
    let mut p1 = CloneableParent(1, CloneableChild(11), CloneableChild(12));
    let p2 = p1;
    assert_eq!(1, p2.0);
    p1.0 = 5;
    assert_eq!(5, p1.0);
}

#[test]
fn borrowing() {
    fn f1(p: Parent) {
        println!("p: {:?}", p);
    }
    fn f2(p: &mut Parent) {
        p.0 += 1;
    }

    let mut p1 = Parent(1, Child(11), Child(12));
    f1(p1);

    p1 = Parent(1, Child(11), Child(12));
    f2(&mut p1);
    assert_eq!(2, p1.0);
    f2(&mut p1);
    assert_eq!(3, p1.0);
}

#[test]
fn borrowing_lifetime() {
    fn process_or_default(key: char, map: &mut HashMap<char, String>) {
        match map.get_mut(&key) {
            Some(value) => value.push_str(", world!"),
            None => {
                map.insert(key, Default::default());
            }
        }
    }

    let mut map = HashMap::new();
    map.insert('h', "Hello".to_string());
    process_or_default('h', &mut map);
    process_or_default('v', &mut map);
    assert_eq!(Some(&String::from("Hello, world!")), map.get(&'h'));
    assert_eq!(Some(&String::from("")), map.get(&'v'));
}
