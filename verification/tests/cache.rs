use runtime::cache::{copy_bytes, copy_words, same_bytes, Cache};

#[test]
fn unknown_key_reads_empty() {
    let mut cache = Cache::new();
    assert_eq!(cache.get(b"missing"), Vec::<u32>::new());
    assert_eq!(cache.put(b"missing", &[1]), Ok(()));
}

#[test]
fn put_then_get_returns_the_value() {
    let mut cache = Cache::new();
    assert_eq!(cache.put(b"key", &[10, 20, 30]), Ok(()));
    assert_eq!(cache.get(b"key"), vec![10, 20, 30]);
}

#[test]
fn put_overwrites() {
    let mut cache = Cache::new();
    cache.put(b"key", &[1]).unwrap();
    cache.put(b"key", &[2, 3]).unwrap();
    assert_eq!(cache.get(b"key"), vec![2, 3]);
}

#[test]
fn put_on_a_lent_key_fails_and_keeps_the_value() {
    let mut cache = Cache::new();
    cache.put(b"key", &[1]).unwrap();
    assert_eq!(cache.get(b"key"), vec![1]);
    assert_eq!(cache.put(b"key", &[2]), Err(()));
    assert_eq!(cache.get(b"key"), vec![1]);
}

#[test]
fn release_lets_the_key_be_written_again() {
    let mut cache = Cache::new();
    cache.put(b"key", &[1]).unwrap();
    cache.get(b"key");
    cache.release(b"key");
    assert_eq!(cache.put(b"key", &[2]), Ok(()));
    assert_eq!(cache.get(b"key"), vec![2]);
}

#[test]
fn release_of_an_unknown_key_does_nothing() {
    let mut cache = Cache::new();
    cache.release(b"nothing");
    assert_eq!(cache.get(b"nothing"), Vec::<u32>::new());
}

#[test]
fn keys_do_not_disturb_each_other() {
    let mut cache = Cache::new();
    cache.put(b"a", &[1]).unwrap();
    cache.put(b"b", &[2]).unwrap();
    cache.get(b"a");
    assert_eq!(cache.put(b"b", &[3]), Ok(()));
    assert_eq!(cache.put(b"a", &[4]), Err(()));
    assert_eq!(cache.get(b"b"), vec![3]);
    assert_eq!(cache.get(b"a"), vec![1]);
}

#[test]
fn empty_key_and_empty_value_are_values() {
    let mut cache = Cache::new();
    assert_eq!(cache.put(b"", &[]), Ok(()));
    assert_eq!(cache.get(b""), Vec::<u32>::new());
    assert_eq!(cache.put(b"", &[1]), Err(()));
}

#[test]
fn key_prefix_is_another_key() {
    let mut cache = Cache::new();
    cache.put(b"ab", &[1]).unwrap();
    cache.put(b"abc", &[2]).unwrap();
    assert_eq!(cache.get(b"ab"), vec![1]);
    assert_eq!(cache.get(b"abc"), vec![2]);
    assert_eq!(cache.get(b"a"), Vec::<u32>::new());
}

#[test]
fn byte_helpers() {
    assert!(same_bytes(b"abc", b"abc"));
    assert!(!same_bytes(b"abc", b"abd"));
    assert!(!same_bytes(b"abc", b"ab"));
    assert!(same_bytes(b"", b""));
    assert_eq!(copy_bytes(b"xyz"), b"xyz".to_vec());
    assert_eq!(copy_words(&[1, 2, 3]), vec![1, 2, 3]);
}
