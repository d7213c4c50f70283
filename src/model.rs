use vstd::prelude::*;

verus! {

/// One member of a sorted set with its score, the score as the store wrote it.
#[derive(Debug, Clone)]
pub struct Z {
    pub score: String,
    pub member: String,
}

impl Z {
    pub fn new(score: String, member: String) -> (r: Z)
        ensures
            r.score@ == score@,
            r.member@ == member@,
    {
        Z { score, member }
    }
}

/// One field of a hash and its value.
#[derive(Debug, Clone)]
pub struct HashResult {
    pub key: String,
    pub value: String,
}

impl HashResult {
    pub fn new(key: String, value: String) -> (r: HashResult)
        ensures
            r.key@ == key@,
            r.value@ == value@,
    {
        HashResult { key, value }
    }
}

/// One stream entry: its id and its fields written as a JSON object.
#[derive(Debug, Clone)]
pub struct StreamResult {
    pub id: String,
    pub value: String,
}

impl StreamResult {
    pub fn new(id: String, value: String) -> (r: StreamResult)
        ensures
            r.id@ == id@,
            r.value@ == value@,
    {
        StreamResult { id, value }
    }
}

/// The content of a key, by its type.
#[derive(Debug)]
pub enum RedisValue {
    String(String),
    List(Vec<String>),
    UnorderedSet(Vec<String>),
    ZSet(Vec<Z>),
    Hash(Vec<HashResult>),
    Stream(Vec<StreamResult>),
}

/// A key with its type, ttl, size and content.
#[derive(Debug)]
pub struct KeyContentDetail {
    pub key: String,
    pub key_type: String,
    pub label: String,
    pub ttl: i64,
    pub size: usize,
    pub value: RedisValue,
}

/// A key with its type and ttl.
#[derive(Debug)]
pub struct KeyInfo {
    pub key: String,
    pub key_type: String,
    pub label: String,
    pub ttl: i64,
}

/// A write asked for by the caller: the type it names decides the verb.
#[derive(Debug, Clone)]
pub struct AddKeyInfo {
    pub key_type: String,
    pub key: String,
    pub value: String,
    /// Score of a sorted-set member, as decimal text.
    pub score: Option<String>,
    /// Hash field written.
    pub field: Option<String>,
    /// Hash field the write replaces.
    pub old_field: Option<String>,
    /// Stream entry id; the store picks one when absent.
    pub id: Option<String>,
}

/// A command as sent, with the time it was sent in milliseconds since the Unix epoch.
#[derive(Debug, Clone)]
pub struct RedisLog {
    pub time: i64,
    pub args: Vec<String>,
}

impl RedisLog {
    pub fn new(time: i64, args: Vec<String>) -> (r: RedisLog)
        ensures
            r.time == time,
            r.args@ == args@,
    {
        RedisLog { time, args }
    }
}

} // verus!
