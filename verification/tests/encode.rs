use fishmael_cache::command::write_pair;
use fishmael_cache::encode::ToRedisHArgs;
use redis::{Arg, Cmd};

fn args_of(cmd: &Cmd) -> Vec<Vec<u8>> {
    let mut args = Vec::new();
    for arg in cmd.args_iter() {
        if let Arg::Simple(bytes) = arg {
            args.push(bytes.to_vec());
        }
    }
    args
}

fn written<T: ToRedisHArgs>(value: &T, name: &str) -> Vec<Vec<u8>> {
    let mut cmd = Cmd::new();
    value.write_redis_hargs(name, &mut cmd);
    args_of(&cmd)
}

fn pair(key: &str, value: &[u8]) -> Vec<Vec<u8>> {
    vec![key.as_bytes().to_vec(), value.to_vec()]
}

#[test]
fn write_pair_appends_key_then_value() {
    let mut cmd = Cmd::new();
    write_pair("name", b"Test", &mut cmd);
    assert_eq!(args_of(&cmd), pair("name", b"Test"));
}

#[test]
fn write_pair_keeps_earlier_arguments() {
    let mut cmd = redis::cmd("HSET");
    cmd.arg("guild:42");
    write_pair("id", b"42", &mut cmd);
    write_pair("blob", &[0, 255, 44], &mut cmd);
    assert_eq!(
        args_of(&cmd),
        vec![
            b"HSET".to_vec(),
            b"guild:42".to_vec(),
            b"id".to_vec(),
            b"42".to_vec(),
            b"blob".to_vec(),
            vec![0, 255, 44],
        ]
    );
}

#[test]
fn write_pair_with_empty_value_still_writes_the_pair() {
    let mut cmd = Cmd::new();
    write_pair("empty", b"", &mut cmd);
    assert_eq!(args_of(&cmd), pair("empty", b""));
}

#[test]
fn written_command_packs_as_a_hash_set() {
    let mut cmd = redis::cmd("HSET");
    cmd.arg("guild:42");
    7u64.write_redis_hargs("owner_id", &mut cmd);
    assert_eq!(
        cmd.get_packed_command(),
        b"*4\r\n$4\r\nHSET\r\n$8\r\nguild:42\r\n$8\r\nowner_id\r\n$1\r\n7\r\n".to_vec()
    );
}

#[test]
fn unsigned_integers_are_decimal_text() {
    assert_eq!(written(&0u8, "level"), pair("level", b"0"));
    assert_eq!(written(&255u8, "level"), pair("level", b"255"));
    assert_eq!(written(&3600u16, "afk_timeout"), pair("afk_timeout", b"3600"));
    assert_eq!(written(&u16::MAX, "afk_timeout"), pair("afk_timeout", b"65535"));
    assert_eq!(written(&42u64, "id"), pair("id", b"42"));
    assert_eq!(written(&u64::MAX, "id"), pair("id", b"18446744073709551615"));
}

#[test]
fn signed_integers_are_decimal_text() {
    assert_eq!(written(&0i64, "at"), pair("at", b"0"));
    assert_eq!(written(&-5i64, "at"), pair("at", b"-5"));
    assert_eq!(
        written(&1_600_000_000_000_000i64, "at"),
        pair("at", b"1600000000000000")
    );
}

#[test]
fn booleans_are_one_and_zero() {
    assert_eq!(written(&true, "large"), pair("large", b"1"));
    assert_eq!(written(&false, "large"), pair("large", b"0"));
}

#[test]
fn strings_are_their_utf8_bytes() {
    assert_eq!(written(&"Test".to_string(), "name"), pair("name", b"Test"));
    assert_eq!(written(&"".to_string(), "name"), pair("name", b""));
    assert_eq!(
        written(&"naïve ☃".to_string(), "name"),
        pair("name", "naïve ☃".as_bytes())
    );
}

#[test]
fn blobs_are_written_raw() {
    let blob: Vec<u8> = vec![0, 1, 44, 58, 254, 255];
    assert_eq!(written(&blob, "icon"), pair("icon", &[0, 1, 44, 58, 254, 255]));
}

#[test]
fn empty_blob_is_written_as_the_empty_value() {
    let blob: Vec<u8> = Vec::new();
    assert_eq!(written(&blob, "icon"), pair("icon", b""));
}

#[test]
fn id_lists_are_one_joined_value() {
    let ids: Vec<u64> = vec![1, 2, 3];
    assert_eq!(written(&ids, "roles"), pair("roles", b"1,2,3"));
}

#[test]
fn empty_id_list_is_written_as_the_empty_value() {
    let ids: Vec<u64> = Vec::new();
    assert_eq!(written(&ids, "roles"), pair("roles", b""));
}

#[test]
fn string_lists_are_one_joined_value() {
    let features = vec!["COMMUNITY".to_string(), "NEWS".to_string()];
    assert_eq!(written(&features, "features"), pair("features", b"COMMUNITY,NEWS"));
    let none: Vec<String> = Vec::new();
    assert_eq!(written(&none, "features"), pair("features", b""));
}

#[test]
fn absent_optional_writes_nothing() {
    assert_eq!(written(&None::<u64>, "application_id"), Vec::<Vec<u8>>::new());
    assert_eq!(written(&None::<bool>, "owner"), Vec::<Vec<u8>>::new());
    assert_eq!(written(&None::<String>, "description"), Vec::<Vec<u8>>::new());
    assert_eq!(written(&None::<Vec<u8>>, "banner"), Vec::<Vec<u8>>::new());
    assert_eq!(written(&None::<i64>, "joined_at"), Vec::<Vec<u8>>::new());
}

#[test]
fn absent_optional_leaves_the_command_as_it_was() {
    let mut cmd = redis::cmd("HSET");
    cmd.arg("guild:1");
    None::<u64>.write_redis_hargs("application_id", &mut cmd);
    assert_eq!(args_of(&cmd), vec![b"HSET".to_vec(), b"guild:1".to_vec()]);
}

#[test]
fn present_optional_writes_its_inner_value() {
    assert_eq!(written(&Some(9u64), "application_id"), pair("application_id", b"9"));
    assert_eq!(written(&Some(false), "owner"), pair("owner", b"0"));
    assert_eq!(written(&Some(true), "owner"), pair("owner", b"1"));
    assert_eq!(
        written(&Some("About".to_string()), "description"),
        pair("description", b"About")
    );
    assert_eq!(written(&Some(vec![7u8, 8]), "banner"), pair("banner", &[7, 8]));
    assert_eq!(written(&Some(-3i64), "joined_at"), pair("joined_at", b"-3"));
}

#[test]
fn present_optional_with_zero_is_not_absent() {
    assert_eq!(written(&Some(0u64), "member_count"), pair("member_count", b"0"));
}

#[test]
fn nested_optional_follows_the_inner_value() {
    assert_eq!(written(&Some(None::<u64>), "x"), Vec::<Vec<u8>>::new());
    assert_eq!(written(&Some(Some(4u64)), "x"), pair("x", b"4"));
}

#[test]
fn field_name_is_written_as_utf8() {
    assert_eq!(written(&1u64, "größe"), pair("größe", b"1"));
}

#[test]
fn scalars_are_written_as_the_client_writes_them() {
    fn native<T: redis::ToRedisArgs>(name: &str, value: T) -> Vec<Vec<u8>> {
        let mut cmd = Cmd::new();
        cmd.arg(name).arg(value);
        args_of(&cmd)
    }
    for n in [0u8, 9, 10, 255] {
        assert_eq!(written(&n, "n"), native("n", n));
    }
    for n in [0u16, 99, 100, u16::MAX] {
        assert_eq!(written(&n, "n"), native("n", n));
    }
    for n in [0u64, 1, 1234567890123, u64::MAX] {
        assert_eq!(written(&n, "n"), native("n", n));
    }
    for n in [i64::MIN, -1, 0, 1, i64::MAX] {
        assert_eq!(written(&n, "n"), native("n", n));
    }
    for b in [true, false] {
        assert_eq!(written(&b, "b"), native("b", b));
    }
    assert_eq!(written(&"text".to_string(), "s"), native("s", "text"));
    assert_eq!(written(&vec![1u8, 2, 3], "blob"), native("blob", &[1u8, 2, 3][..]));
}
