use vsmoddb::error::ApiError;
use vsmoddb::random::{choose_random, pick_random, take_at};

#[test]
fn pick_from_empty_is_error() {
    match pick_random(Vec::<u32>::new(), "mods") {
        Err(ApiError::Unexpected(m)) => assert_eq!(m, "No mods found"),
        _ => panic!("expected an Unexpected error"),
    }
}

#[test]
fn choose_from_empty_is_none() {
    assert_eq!(choose_random(Vec::<u32>::new()), None);
}

#[test]
fn pick_returns_a_member() {
    let items = vec![10, 20, 30];
    for _ in 0..50 {
        let x = pick_random(items.clone(), "tags").unwrap();
        assert!(items.contains(&x));
        let y = choose_random(items.clone()).unwrap();
        assert!(items.contains(&y));
    }
}

#[test]
fn take_at_index() {
    assert_eq!(take_at(vec![1, 2, 3], 1), Some(2));
    assert_eq!(take_at(vec![1, 2, 3], 3), None);
}
