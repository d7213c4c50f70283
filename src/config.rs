use vstd::prelude::*;

verus! {

/// How to reach one store and how to show it: fixed once a session is open.
#[derive(Debug, Clone)]
pub struct RedisConfig {
    /// Caller-assigned session id, unique among the open sessions.
    pub id: String,
    /// Display name, written before each audit entry.
    pub name: String,
    pub host: String,
    pub port: u16,
    pub username: Option<String>,
    pub password: Option<String>,
    /// Key-namespace delimiter.
    pub split: String,
    /// Whether the store is a cluster.
    pub cluster: bool,
}

} // verus!
