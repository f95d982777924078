use onigmo::server::Server;
use onigmo::utils::{is_sorted_ascending, is_sorted_descending, new_u32_vec};

#[test]
fn new_u32_vec_has_requested_length() {
    assert_eq!(new_u32_vec(0).len(), 0);
    assert_eq!(new_u32_vec(1).len(), 1);
    let v = new_u32_vec(100);
    assert_eq!(v.len(), 100);
    // a fixed-seed generator stream is not constant
    assert!(v.iter().any(|&x| x != v[0]));
}

#[test]
fn sortedness_checks_adjacent_pairs() {
    assert!(is_sorted_ascending(&[]));
    assert!(is_sorted_ascending(&[5]));
    assert!(is_sorted_ascending(&[1, 1, 2, 9]));
    assert!(!is_sorted_ascending(&[1, 3, 2]));

    assert!(is_sorted_descending(&[]));
    assert!(is_sorted_descending(&[9, 9, 4, 0]));
    assert!(!is_sorted_descending(&[4, 5]));
}

#[test]
fn server_state_clones() {
    let server = Server::new();
    let _copy = server.clone();
}

#[test]
fn new_u32_vec_is_deterministic() {
    // fixed zero seed: the stream is a function of the length alone
    assert_eq!(new_u32_vec(50), new_u32_vec(50));
    assert_eq!(new_u32_vec(3), new_u32_vec(3));
}
