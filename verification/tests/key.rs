use fishmael_cache::key::storage_key;

#[test]
fn key_is_namespace_colon_id() {
    assert_eq!(storage_key("guild", 42), "guild:42");
    assert_eq!(storage_key("user", 7), "user:7");
}

#[test]
fn key_of_extreme_ids() {
    assert_eq!(storage_key("guild", 0), "guild:0");
    assert_eq!(storage_key("guild", u64::MAX), "guild:18446744073709551615");
}

#[test]
fn key_with_empty_namespace() {
    assert_eq!(storage_key("", 15), ":15");
}

#[test]
fn same_input_gives_the_same_key() {
    assert_eq!(storage_key("guild", 1234567890), storage_key("guild", 1234567890));
}

#[test]
fn different_ids_give_different_keys() {
    let ids = [0u64, 1, 2, 10, 11, 100, 101, 110, 111, 1000, u64::MAX];
    for a in ids {
        for b in ids {
            if a != b {
                assert_ne!(storage_key("guild", a), storage_key("guild", b));
            }
        }
    }
}
