use gedis::{CmdLog, Command, History, Pipeline, RedisConfig, EVICTED_BATCH, MAX_HISTORY};

fn config(name: &str) -> RedisConfig {
    RedisConfig {
        id: "s1".to_string(),
        name: name.to_string(),
        host: "127.0.0.1".to_string(),
        port: 6379,
        username: None,
        password: None,
        split: ":".to_string(),
        cluster: false,
    }
}

#[test]
fn entry_is_prefixed_with_session_name() {
    let mut h = History::new();
    h.add_log("get k".to_string(), &config("local"));
    assert_eq!(h.logs(), vec!["[local] get k".to_string()]);
}

#[test]
fn add_log_vec_joins_and_lowercases() {
    let mut h = History::new();
    h.add_log_vec(vec!["GET".to_string(), "MyKey".to_string()], &config("db"));
    assert_eq!(h.logs(), vec!["[db] get mykey".to_string()]);
}

#[test]
fn overflow_evicts_oldest_batch() {
    let mut h = History::new();
    let c = config("n");
    for i in 1..=MAX_HISTORY {
        h.add_log(format!("e{i}"), &c);
    }
    assert_eq!(h.len(), MAX_HISTORY);
    h.add_log(format!("e{}", MAX_HISTORY + 1), &c);
    let logs = h.logs();
    assert!(logs.len() <= MAX_HISTORY);
    assert_eq!(logs.len(), MAX_HISTORY - EVICTED_BATCH + 1);
    assert_eq!(logs[0], "[n] e2501");
    assert_eq!(logs[logs.len() - 1], "[n] e5001");
}

#[test]
fn log_below_capacity_keeps_everything() {
    let mut h = History::new();
    let c = config("n");
    for i in 0..10 {
        h.add_log(format!("e{i}"), &c);
    }
    assert_eq!(h.len(), 10);
    assert_eq!(h.logs()[0], "[n] e0");
}

#[test]
fn clear_empties_the_log() {
    let mut h = History::new();
    h.add_log("x".to_string(), &config("n"));
    h.clear();
    assert_eq!(h.len(), 0);
    assert!(h.logs().is_empty());
}

#[test]
fn command_log_lowercases_each_word() {
    let mut h = History::new();
    let c = Command::new("SET").with("Key").with("Value");
    c.log(&mut h, &config("dev"));
    assert_eq!(h.logs(), vec!["[dev] set key value".to_string()]);
}

#[test]
fn pipeline_log_writes_one_entry_per_command() {
    let mut h = History::new();
    let mut p = Pipeline::new();
    p.add(Command::new("TYPE").with("k"));
    p.add(Command::new("TTL").with("k"));
    p.log(&mut h, &config("dev"));
    assert_eq!(h.logs(), vec!["[dev] type k".to_string(), "[dev] ttl k".to_string()]);
}
