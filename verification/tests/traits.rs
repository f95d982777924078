use onigmo::echo::{handle, EchoServer};

#[test]
fn associated_type() {
    let s = EchoServer {};
    let res = handle(s, "hello");
    assert_eq!("hello", res);
}
