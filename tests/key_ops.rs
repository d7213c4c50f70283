use gedis::keyops::{
    content_command, count_command, del_keys_command, del_value_command, gather_keys,
    hash_fields, key_detail, key_info, rename_command, rename_outcome, select_db_command,
    set_key_commands, set_ttl_command, stream_entries, terminal_command, type_and_ttl,
    xadd_command, zset_members,
};
use gedis::{AddKeyInfo, Command, ErrorKind, KeyType, RedisConfig, RedisValue};

fn words(c: &Command) -> Vec<&str> {
    c.args.iter().map(|a| a.as_str()).collect()
}

fn all_words(cs: &[Command]) -> Vec<Vec<&str>> {
    cs.iter().map(words).collect()
}

fn write(key_type: &str, key: &str, value: &str) -> AddKeyInfo {
    AddKeyInfo {
        key_type: key_type.to_string(),
        key: key.to_string(),
        value: value.to_string(),
        score: None,
        field: None,
        old_field: None,
        id: None,
    }
}

fn config(cluster: bool) -> RedisConfig {
    RedisConfig {
        id: "s".to_string(),
        name: "n".to_string(),
        host: "h".to_string(),
        port: 6379,
        username: None,
        password: None,
        split: ":".to_string(),
        cluster,
    }
}

#[test]
fn fresh_string_is_set_then_made_persistent() {
    let cmds = set_key_commands(&write("string", "k", "v"), -2).unwrap();
    assert_eq!(all_words(&cmds), vec![vec!["SET", "k", "v"], vec!["PERSIST", "k"]]);
    assert_eq!(KeyType::from_tag("string").unwrap(), KeyType::String);
}

#[test]
fn fresh_list_uses_lpush() {
    let cmds = set_key_commands(&write("list", "l", "a"), -2).unwrap();
    assert_eq!(all_words(&cmds), vec![vec!["LPUSH", "l", "a"], vec!["PERSIST", "l"]]);
}

#[test]
fn existing_key_keeps_its_ttl() {
    let cmds = set_key_commands(&write("string", "k", "v2"), 120).unwrap();
    assert_eq!(all_words(&cmds), vec![vec!["SET", "k", "v2"], vec!["EXPIRE", "k", "120"]]);
    let cmds = set_key_commands(&write("list", "l", "b"), 120).unwrap();
    assert_eq!(all_words(&cmds), vec![vec!["RPUSH", "l", "b"], vec!["EXPIRE", "l", "120"]]);
}

#[test]
fn persistent_key_gets_no_ttl_command() {
    let cmds = set_key_commands(&write("set", "s", "m"), -1).unwrap();
    assert_eq!(all_words(&cmds), vec![vec!["SADD", "s", "m"]]);
}

#[test]
fn zset_write_takes_score_or_zero() {
    let cmds = set_key_commands(&write("zset", "z", "m"), -1).unwrap();
    assert_eq!(all_words(&cmds), vec![vec!["ZADD", "z", "0", "m"]]);
    let mut info = write("zset", "z", "m");
    info.score = Some("2.5".to_string());
    let cmds = set_key_commands(&info, -1).unwrap();
    assert_eq!(all_words(&cmds), vec![vec!["ZADD", "z", "2.5", "m"]]);
}

#[test]
fn hash_field_rename_deletes_old_field() {
    let mut info = write("hash", "h", "v");
    info.field = Some("new".to_string());
    info.old_field = Some("old".to_string());
    let cmds = set_key_commands(&info, -1).unwrap();
    assert_eq!(all_words(&cmds), vec![vec!["HSET", "h", "new", "v"], vec!["HDEL", "h", "old"]]);
    info.old_field = Some("new".to_string());
    let cmds = set_key_commands(&info, -1).unwrap();
    assert_eq!(all_words(&cmds), vec![vec!["HSET", "h", "new", "v"]]);
}

#[test]
fn stream_write_reads_json_fields() {
    let cmds = set_key_commands(&write("stream", "st", r#"{"b":"2","a":"1"}"#), -2).unwrap();
    assert_eq!(
        all_words(&cmds),
        vec![vec!["XADD", "st", "*", "a", "1", "b", "2"], vec!["PERSIST", "st"]]
    );
    let mut info = write("stream", "st", r#"{"a":"1"}"#);
    info.id = Some("5-1".to_string());
    let cmds = set_key_commands(&info, -1).unwrap();
    assert_eq!(all_words(&cmds), vec![vec!["XADD", "st", "5-1", "a", "1"]]);
}

#[test]
fn stream_write_refuses_bad_json() {
    let err = set_key_commands(&write("stream", "st", "not json"), -2).unwrap_err();
    assert_eq!(err.kind, ErrorKind::ValueParse);
    let err = set_key_commands(&write("stream", "st", r#"{"a":1}"#), -2).unwrap_err();
    assert_eq!(err.kind, ErrorKind::ValueParse);
}

#[test]
fn unknown_type_is_refused() {
    let err = set_key_commands(&write("none", "k", "v"), -2).unwrap_err();
    assert_eq!(err.kind, ErrorKind::UnsupportedKeyType);
    assert_eq!(KeyType::from_tag("none").unwrap_err().kind, ErrorKind::UnsupportedKeyType);
}

#[test]
fn xadd_lays_out_fields() {
    let fields = vec![("f".to_string(), "v".to_string()), ("g".to_string(), "w".to_string())];
    let c = xadd_command("s", &None, &fields);
    assert_eq!(words(&c), vec!["XADD", "s", "*", "f", "v", "g", "w"]);
}

#[test]
fn ttl_minus_one_persists() {
    let c = set_ttl_command("k", -1).unwrap();
    assert_eq!(words(&c), vec!["PERSIST", "k"]);
}

#[test]
fn ttl_below_minus_one_is_invalid() {
    assert_eq!(set_ttl_command("k", -2).unwrap_err().kind, ErrorKind::InvalidTtl);
}

#[test]
fn ttl_seconds_sets_expiry() {
    let c = set_ttl_command("k", 30).unwrap();
    assert_eq!(words(&c), vec!["EXPIRE", "k", "30"]);
    let c = set_ttl_command("k", 0).unwrap();
    assert_eq!(words(&c), vec!["EXPIRE", "k", "0"]);
}

#[test]
fn rename_never_overwrites() {
    assert_eq!(words(&rename_command("a", "b")), vec!["RENAMENX", "a", "b"]);
    assert_eq!(rename_outcome(0).unwrap_err().kind, ErrorKind::DestinationExists);
    assert!(rename_outcome(1).is_ok());
}

#[test]
fn delete_value_removes_exactly_the_given_item() {
    let v = Some("f1".to_string());
    assert_eq!(words(&del_value_command("hash", "h", &v).unwrap()), vec!["HDEL", "h", "f1"]);
    let m = Some("m1".to_string());
    assert_eq!(words(&del_value_command("zset", "z", &m).unwrap()), vec!["ZREM", "z", "m1"]);
    assert_eq!(words(&del_value_command("list", "l", &m).unwrap()), vec!["LREM", "l", "1", "m1"]);
    assert_eq!(words(&del_value_command("set", "s", &m).unwrap()), vec!["SREM", "s", "m1"]);
    assert_eq!(words(&del_value_command("stream", "x", &m).unwrap()), vec!["XDEL", "x", "m1"]);
    assert_eq!(words(&del_value_command("string", "k", &None).unwrap()), vec!["DEL", "k"]);
    assert_eq!(words(&del_value_command("hash", "h", &None).unwrap()), vec!["HDEL", "h", ""]);
    let err = del_value_command("none", "k", &v).unwrap_err();
    assert_eq!(err.kind, ErrorKind::UnsupportedKeyType);
}

#[test]
fn pattern_delete_is_one_batch() {
    assert!(del_keys_command(&vec![]).is_none());
    let keys = vec!["a:1".to_string(), "a:2".to_string()];
    assert_eq!(words(&del_keys_command(&keys).unwrap()), vec!["DEL", "a:1", "a:2"]);
}

#[test]
fn select_is_skipped_on_clusters() {
    assert!(select_db_command(&config(true), 3).is_none());
    assert_eq!(words(&select_db_command(&config(false), 3).unwrap()), vec!["SELECT", "3"]);
}

#[test]
fn type_and_ttl_share_a_round_trip() {
    let p = type_and_ttl("k");
    assert_eq!(all_words(&p.commands), vec![vec!["TYPE", "k"], vec!["TTL", "k"]]);
}

#[test]
fn key_info_labels_the_type() {
    let info = key_info("k".to_string(), "zset", 12).unwrap();
    assert_eq!(info.key, "k");
    assert_eq!(info.key_type, "zset");
    assert_eq!(info.label, "Zset");
    assert_eq!(info.ttl, 12);
    assert_eq!(key_info("k".to_string(), "none", -2).unwrap_err().kind, ErrorKind::UnsupportedKeyType);
}

#[test]
fn detail_fetch_commands() {
    assert!(count_command(KeyType::String, "k").is_none());
    assert_eq!(words(&count_command(KeyType::List, "l").unwrap()), vec!["LLEN", "l"]);
    assert_eq!(words(&count_command(KeyType::Stream, "s").unwrap()), vec!["XLEN", "s"]);
    assert_eq!(words(&content_command(KeyType::List, "l", 5)), vec!["LRANGE", "l", "0", "4"]);
    assert_eq!(words(&content_command(KeyType::List, "l", 0)), vec!["LRANGE", "l", "0", "-1"]);
    assert_eq!(
        words(&content_command(KeyType::ZSet, "z", 3)),
        vec!["ZRANGE", "z", "0", "2", "WITHSCORES"]
    );
    assert_eq!(
        words(&content_command(KeyType::Stream, "s", 9)),
        vec!["XREVRANGE", "s", "+", "-", "COUNT", "200"]
    );
    assert_eq!(words(&content_command(KeyType::String, "k", 0)), vec!["GET", "k"]);
}

#[test]
fn string_detail_size_is_byte_length() {
    let d = key_detail("k".to_string(), KeyType::String, -1, 0, RedisValue::String("héllo".to_string()));
    assert_eq!(d.size, 6);
    assert_eq!(d.key_type, "string");
    assert_eq!(d.label, "String");
}

#[test]
fn collection_detail_size_is_the_count() {
    let d = key_detail(
        "l".to_string(),
        KeyType::List,
        50,
        3,
        RedisValue::List(vec!["a".to_string(), "b".to_string()]),
    );
    assert_eq!(d.size, 3);
    assert_eq!(d.ttl, 50);
}

#[test]
fn replies_become_values() {
    let z = zset_members(vec![("m".to_string(), "1.5".to_string())]);
    assert_eq!(z[0].member, "m");
    assert_eq!(z[0].score, "1.5");
    let h = hash_fields(vec![("f".to_string(), "v".to_string())]);
    assert_eq!(h[0].key, "f");
    assert_eq!(h[0].value, "v");
    let s = stream_entries(vec![(
        "1-0".to_string(),
        vec![("b".to_string(), "2".to_string()), ("a".to_string(), "1".to_string())],
    )]);
    assert_eq!(s[0].id, "1-0");
    assert_eq!(s[0].value, r#"{"a":"1","b":"2"}"#);
}

#[test]
fn fan_out_gathers_keys_in_node_order() {
    let mut all = vec!["a".to_string()];
    gather_keys(&mut all, vec!["b".to_string(), "c".to_string()]);
    assert_eq!(all, vec!["a", "b", "c"]);
}

#[test]
fn terminal_line_becomes_a_command() {
    assert!(terminal_command(&None).is_none());
    assert!(terminal_command(&Some(vec![])).is_none());
    let c = terminal_command(&Some(vec!["GET".to_string(), "k".to_string()])).unwrap();
    assert_eq!(words(&c), vec!["GET", "k"]);
}
