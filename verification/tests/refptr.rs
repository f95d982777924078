use std::cell::RefCell;

#[test]
fn interior_mutability() {
    struct A {
        c: char,
        s: String,
    }
    let a = A {
        c: 'a',
        s: "ales".to_string(),
    };
    let _r = &a;
    let _ = (a.c, &a.s);

    struct B {
        c: char,
        s: RefCell<String>,
    }

    let b = B {
        c: 'b',
        s: RefCell::new("alex".to_string()),
    };
    let _ = b.c;
    let rb = &b;
    rb.s.borrow_mut().push('a');
    {
        let rbs = b.s.borrow();
        assert_eq!(&*rbs, "alexa");
        assert!(b.s.try_borrow_mut().is_err());
    }
    assert!(b.s.try_borrow_mut().is_ok());
}
