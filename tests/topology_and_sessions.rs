use gedis::{ErrorKind, NodeInfo, NodesInfo, Redis, RedisConfig};

const LISTING: &str = "07c37dfeb235213a872192d90877d0cd55635b91 127.0.0.1:30004@31004 slave e7d1eecce10fd6bb5eb35b9f99a514335d9ba9ca 0 1426238317239 4 connected\n\
67ed2db8d677e59ec4a4cefb06858cf2a1a89fa1 127.0.0.1:30002@31002 master - 0 1426238316232 2 connected 5461-10922\n\
e7d1eecce10fd6bb5eb35b9f99a514335d9ba9ca 127.0.0.1:30001@31001 myself,master - 0 0 1 connected 0-5460\n";

#[test]
fn master_line_is_parsed() {
    let nodes = NodesInfo::parse("07c... 127.0.0.1:7001@17001 master - 0 1694000000000 1 connected 0-5460").unwrap();
    let all = nodes.nodes();
    assert_eq!(all.len(), 1);
    let n = &all[0];
    assert_eq!(n.id, "07c...");
    assert!(n.flags.contains("master"));
    assert_eq!(n.pong_sent, 1694000000000);
    assert_eq!(n.config_epoch, 1);
    assert_eq!(n.link_state, "connected");
    assert_eq!(n.slot, None);
    assert_eq!(n.addr_or_default_port(6379), ("127.0.0.1".to_string(), 7001));
    assert!(n.is_master());
    let masters = nodes.master_nodes();
    assert_eq!(masters.len(), 1);
    assert_eq!(masters[0].host, "127.0.0.1:7001@17001");
}

#[test]
fn only_masters_are_listed() {
    let nodes = NodesInfo::parse(LISTING).unwrap();
    assert_eq!(nodes.nodes().len(), 3);
    let masters = nodes.master_nodes();
    assert_eq!(masters.len(), 2);
    assert_eq!(masters[0].id, "67ed2db8d677e59ec4a4cefb06858cf2a1a89fa1");
    assert_eq!(
        nodes.master_addrs(6379),
        vec![("127.0.0.1".to_string(), 30002), ("127.0.0.1".to_string(), 30001)]
    );
}

#[test]
fn short_or_malformed_lines_are_skipped() {
    let recs = vec![
        vec!["a".to_string(), "h:1".to_string()],
        vec!["a", "h:1", "master", "-", "x", "0", "1", "connected"]
            .into_iter()
            .map(String::from)
            .collect(),
        vec!["b", "h:2", "master", "-", "0", "0", "1", "connected", "7"]
            .into_iter()
            .map(String::from)
            .collect(),
    ];
    let nodes = NodesInfo::from_records(&recs).nodes();
    assert_eq!(nodes.len(), 1);
    assert_eq!(nodes[0].id, "b");
    assert_eq!(nodes[0].slot, Some(7));
    assert_eq!(NodeInfo::from_record(&recs[0]).unwrap_err().kind, ErrorKind::TopologyParse);
}

fn node(host: &str) -> NodeInfo {
    NodeInfo {
        id: "i".to_string(),
        host: host.to_string(),
        flags: "slave".to_string(),
        master_id: "m".to_string(),
        ping_sent: 0,
        pong_sent: 0,
        config_epoch: 0,
        link_state: "connected".to_string(),
        slot: None,
    }
}

#[test]
fn missing_port_falls_back_to_default() {
    assert_eq!(node("10.0.0.1").addr_or_default_port(7000), ("10.0.0.1".to_string(), 7000));
    assert_eq!(node("10.0.0.1:x@1").addr_or_default_port(7000), ("10.0.0.1".to_string(), 7000));
    assert_eq!(node("10.0.0.1:6380").addr_or_default_port(7000), ("10.0.0.1".to_string(), 6380));
    assert!(!node("h:1").is_master());
}

fn config(id: &str) -> RedisConfig {
    RedisConfig {
        id: id.to_string(),
        name: format!("name-{id}"),
        host: "127.0.0.1".to_string(),
        port: 6379,
        username: None,
        password: None,
        split: ":".to_string(),
        cluster: false,
    }
}

#[test]
fn unknown_session_is_not_found() {
    let mut r: Redis<u32> = Redis::new();
    assert_eq!(r.get_con_mut("nope").unwrap_err().kind, ErrorKind::SessionNotFound);
    assert_eq!(r.get_con_and_config("nope").unwrap_err().kind, ErrorKind::SessionNotFound);
}

#[test]
fn open_then_close_session() {
    let mut r: Redis<u32> = Redis::new();
    r.add_instance(7, config("a")).unwrap();
    r.add_instance(8, config("b")).unwrap();
    assert!(r.is_connection("a"));
    {
        let (con, cfg) = r.get_con_and_config("a").unwrap();
        assert_eq!(*con, 7);
        assert_eq!(cfg.name, "name-a");
        *con = 70;
    }
    assert_eq!(*r.get_con_mut("a").unwrap(), 70);
    r.remove_con("a").unwrap();
    assert!(!r.is_connection("a"));
    assert!(r.is_connection("b"));
    r.remove_con("a").unwrap();
    r.remove_con_all().unwrap();
    assert!(!r.is_connection("b"));
}

#[test]
fn reopening_replaces_the_session() {
    let mut r: Redis<u32> = Redis::new();
    r.add_instance(1, config("a")).unwrap();
    r.add_instance(2, config("a")).unwrap();
    assert_eq!(*r.get_con_mut("a").unwrap(), 2);
    r.remove_con("a").unwrap();
    assert!(!r.is_connection("a"));
}
