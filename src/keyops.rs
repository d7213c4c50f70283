use vstd::prelude::*;
use vstd::string::*;

use crate::command::Command;
use crate::error::{ErrorKind, SerializeError};
use crate::json::{json_string_map, parse_string_object};
use crate::config::RedisConfig;
use crate::json::object_text;
use crate::model::{AddKeyInfo, HashResult, KeyContentDetail, KeyInfo, RedisValue, StreamResult, Z};
use crate::text::{decimal_of, decimal_text, same_text, signed_decimal_of, signed_decimal_text};

verus! {

/// The type of a key's value, as the store reports it.
#[derive(Debug, Clone, Copy, PartialEq, Eq, Structural)]
pub enum KeyType {
    String,
    List,
    UnorderedSet,
    ZSet,
    Hash,
    Stream,
}

/// The key type a tag names; none for an unknown tag (and for `none`).
pub open spec fn key_type_of(tag: Seq<char>) -> Option<KeyType> {
    if tag == "string"@ {
        Some(KeyType::String)
    } else if tag == "list"@ {
        Some(KeyType::List)
    } else if tag == "set"@ {
        Some(KeyType::UnorderedSet)
    } else if tag == "zset"@ {
        Some(KeyType::ZSet)
    } else if tag == "hash"@ {
        Some(KeyType::Hash)
    } else if tag == "stream"@ {
        Some(KeyType::Stream)
    } else {
        None
    }
}

impl KeyType {
    pub open spec fn tag_of(self) -> Seq<char> {
        match self {
            KeyType::String => "string"@,
            KeyType::List => "list"@,
            KeyType::UnorderedSet => "set"@,
            KeyType::ZSet => "zset"@,
            KeyType::Hash => "hash"@,
            KeyType::Stream => "stream"@,
        }
    }

    pub open spec fn label_of(self) -> Seq<char> {
        match self {
            KeyType::String => "String"@,
            KeyType::List => "List"@,
            KeyType::UnorderedSet => "Set"@,
            KeyType::ZSet => "Zset"@,
            KeyType::Hash => "Hash"@,
            KeyType::Stream => "Stream"@,
        }
    }

    /// The tag the store uses for the type.
    pub fn tag(&self) -> (r: &'static str)
        ensures
            r@ == self.tag_of(),
    {
        match self {
            KeyType::String => "string",
            KeyType::List => "list",
            KeyType::UnorderedSet => "set",
            KeyType::ZSet => "zset",
            KeyType::Hash => "hash",
            KeyType::Stream => "stream",
        }
    }

    /// The tag with its first letter in upper case.
    pub fn label(&self) -> (r: &'static str)
        ensures
            r@ == self.label_of(),
    {
        match self {
            KeyType::String => "String",
            KeyType::List => "List",
            KeyType::UnorderedSet => "Set",
            KeyType::ZSet => "Zset",
            KeyType::Hash => "Hash",
            KeyType::Stream => "Stream",
        }
    }

    /// Reads a type tag; any tag but the six known ones is unsupported.
    pub fn from_tag(tag: &str) -> (r: Result<KeyType, SerializeError>)
        ensures
            r is Ok <==> key_type_of(tag@) is Some,
            r is Ok ==> r->Ok_0 == key_type_of(tag@)->0,
            r is Err ==> r->Err_0.kind == ErrorKind::UnsupportedKeyType,
    {
        if same_text(tag, "string") {
            Ok(KeyType::String)
        } else if same_text(tag, "list") {
            Ok(KeyType::List)
        } else if same_text(tag, "set") {
            Ok(KeyType::UnorderedSet)
        } else if same_text(tag, "zset") {
            Ok(KeyType::ZSet)
        } else if same_text(tag, "hash") {
            Ok(KeyType::Hash)
        } else if same_text(tag, "stream") {
            Ok(KeyType::Stream)
        } else {
            Err(SerializeError::of_kind(ErrorKind::UnsupportedKeyType, "unsupported key type"))
        }
    }
}

/// The views of a sequence of commands.
pub open spec fn commands_view(cmds: Seq<Command>) -> Seq<Seq<Seq<char>>> {
    cmds.map_values(|c: Command| c@)
}

/// The text of an optional string, or the default when absent.
pub open spec fn text_or(o: Option<String>, default: Seq<char>) -> Seq<char> {
    match o {
        Some(s) => s@,
        None => default,
    }
}

/// Field/value pairs laid out one after the other.
pub open spec fn flatten_fields(fields: Seq<(Seq<char>, Seq<char>)>) -> Seq<Seq<char>>
    decreases fields.len(),
{
    if fields.len() == 0 {
        Seq::empty()
    } else {
        flatten_fields(fields.drop_last()) + seq![fields.last().0, fields.last().1]
    }
}

/// The write of a value into a key of the given type. `expired` is the ttl seen
/// before the write (-2: no such key); `fields` are a stream entry's fields.
pub open spec fn write_commands(
    t: KeyType,
    info: AddKeyInfo,
    expired: int,
    fields: Seq<(Seq<char>, Seq<char>)>,
) -> Seq<Seq<Seq<char>>> {
    let key = info.key@;
    let value = info.value@;
    match t {
        KeyType::String => seq![seq!["SET"@, key, value]],
        KeyType::List => if expired == -2 {
            seq![seq!["LPUSH"@, key, value]]
        } else {
            seq![seq!["RPUSH"@, key, value]]
        },
        KeyType::UnorderedSet => seq![seq!["SADD"@, key, value]],
        KeyType::ZSet => seq![seq!["ZADD"@, key, text_or(info.score, "0"@), value]],
        KeyType::Hash => {
            let field = text_or(info.field, Seq::empty());
            let hset = seq!["HSET"@, key, field, value];
            match info.old_field {
                Some(old) => if old@ != field {
                    seq![hset, seq!["HDEL"@, key, old@]]
                } else {
                    seq![hset]
                },
                None => seq![hset],
            }
        },
        KeyType::Stream => seq![seq!["XADD"@, key, text_or(info.id, "*"@)] + flatten_fields(fields)],
    }
}

/// After a write, the ttl seen before it is put back: a new key is made
/// persistent, a persistent one is left alone, any other gets its ttl again.
pub open spec fn ttl_restore_commands(key: Seq<char>, expired: int) -> Seq<Seq<Seq<char>>> {
    if expired == -2 {
        seq![seq!["PERSIST"@, key]]
    } else if expired == -1 {
        Seq::empty()
    } else {
        seq![seq!["EXPIRE"@, key, signed_decimal_of(expired)]]
    }
}

/// The commands of a write, or none when the type is unknown or a stream
/// entry is no JSON object of strings.
pub open spec fn set_key_plan(info: AddKeyInfo, expired: int) -> Option<Seq<Seq<Seq<char>>>> {
    match key_type_of(info.key_type@) {
        None => None,
        Some(t) => if t == KeyType::Stream {
            match json_string_map(info.value@) {
                None => None,
                Some(f) => Some(
                    write_commands(t, info, expired, f) + ttl_restore_commands(info.key@, expired),
                ),
            }
        } else {
            Some(
                write_commands(t, info, expired, Seq::empty()) + ttl_restore_commands(
                    info.key@,
                    expired,
                ),
            )
        },
    }
}

/// `XADD key id f1 v1 f2 v2 ...`, the store picking the id when none is given.
pub fn xadd_command(key: &str, id: &Option<String>, fields: &Vec<(String, String)>) -> (r: Command)
    ensures
        r@ == seq!["XADD"@, key@, text_or(*id, "*"@)] + flatten_fields(fields.deep_view()),
{
    let mut c = Command::new("XADD");
    c.arg(key);
    match id {
        Some(i) => c.arg(i.as_str()),
        None => c.arg("*"),
    }
    let ghost head = c@;
    let ghost f = fields.deep_view();
    let mut i: usize = 0;
    while i < fields.len()
        invariant
            i <= fields.len(),
            f == fields.deep_view(),
            c@ == head + flatten_fields(f.subrange(0, i as int)),
        decreases fields.len() - i,
    {
        proof {
            assert(f.subrange(0, i as int + 1).drop_last() =~= f.subrange(0, i as int));
        }
        c.arg(fields[i].0.as_str());
        c.arg(fields[i].1.as_str());
        assert(c@ =~= head + flatten_fields(f.subrange(0, i as int + 1)));
        i = i + 1;
    }
    assert(f.subrange(0, fields.len() as int) =~= f);
    c
}

/// The commands that write a caller's value, given the ttl the key had before
/// (`TTL key`): the verb follows the type named by the caller, and the ttl seen
/// before is put back afterwards.
pub fn set_key_commands(info: &AddKeyInfo, expired: i64) -> (r: Result<Vec<Command>, SerializeError>)
    ensures
        match set_key_plan(*info, expired as int) {
            Some(p) => r is Ok && commands_view(r->Ok_0@) == p,
            None => r is Err,
        },
        r is Err ==> (key_type_of(info.key_type@) is None <==> r->Err_0.kind
            == ErrorKind::UnsupportedKeyType),
        r is Err ==> (key_type_of(info.key_type@) is Some <==> r->Err_0.kind
            == ErrorKind::ValueParse),
{
    let t = KeyType::from_tag(info.key_type.as_str())?;
    let key = info.key.as_str();
    let value = info.value.as_str();
    let mut cmds: Vec<Command> = Vec::new();
    let ghost no_fields = Seq::<(Seq<char>, Seq<char>)>::empty();
    let ghost mut fields = no_fields;
    match t {
        KeyType::String => {
            cmds.push(Command::new("SET").with(key).with(value));
            assert(commands_view(cmds@) =~~= write_commands(t, *info, expired as int, fields));
        },
        KeyType::List => {
            if expired == -2 {
                cmds.push(Command::new("LPUSH").with(key).with(value));
            } else {
                cmds.push(Command::new("RPUSH").with(key).with(value));
            }
            assert(commands_view(cmds@) =~~= write_commands(t, *info, expired as int, fields));
        },
        KeyType::UnorderedSet => {
            cmds.push(Command::new("SADD").with(key).with(value));
            assert(commands_view(cmds@) =~~= write_commands(t, *info, expired as int, fields));
        },
        KeyType::ZSet => {
            let score = match &info.score {
                Some(s) => s.as_str(),
                None => "0",
            };
            assert(score@ == text_or(info.score, "0"@));
            cmds.push(Command::new("ZADD").with(key).with(score).with(value));
            assert(commands_view(cmds@) =~~= write_commands(t, *info, expired as int, fields));
        },
        KeyType::Hash => {
            proof {
                reveal_strlit("");
            }
            let field = match &info.field {
                Some(f) => f.as_str(),
                None => "",
            };
            assert(field@ =~= text_or(info.field, Seq::empty()));
            cmds.push(Command::new("HSET").with(key).with(field).with(value));
            match &info.old_field {
                Some(old) => {
                    if !same_text(old.as_str(), field) {
                        cmds.push(Command::new("HDEL").with(key).with(old.as_str()));
                    }
                },
                None => {},
            }
            assert(commands_view(cmds@) =~~= write_commands(t, *info, expired as int, fields));
        },
        KeyType::Stream => {
            let parsed = parse_string_object(value);
            match parsed {
                Ok(pairs) => {
                    proof {
                        fields = pairs.deep_view();
                    }
                    cmds.push(xadd_command(key, &info.id, &pairs));
                    assert(commands_view(cmds@) =~~= write_commands(t, *info, expired as int, fields));
                },
                Err(_) => {
                    return Err(
                        SerializeError::of_kind(
                            ErrorKind::ValueParse,
                            "stream value is not a JSON object of strings",
                        ),
                    );
                },
            }
        },
    }
    assert(commands_view(cmds@) =~~= write_commands(t, *info, expired as int, fields));
    let ghost written = cmds@;
    if expired == -2 {
        cmds.push(Command::new("PERSIST").with(key));
    } else if expired != -1 {
        cmds.push(Command::new("EXPIRE").with(key).with(signed_decimal_text(expired).as_str()));
    }
    assert(commands_view(cmds@) =~~= write_commands(t, *info, expired as int, fields)
        + ttl_restore_commands(info.key@, expired as int));
    Ok(cmds)
}

/// Before a keyspace command, a direct session selects the database; a cluster
/// session always works on database 0 and selects nothing.
pub fn select_db_command(config: &RedisConfig, db: u16) -> (r: Option<Command>)
    ensures
        config.cluster ==> r is None,
        !config.cluster ==> r is Some && r->0@ == seq!["SELECT"@, decimal_of(db as nat)],
{
    if config.cluster {
        None
    } else {
        Some(Command::new("SELECT").with(decimal_text(db as u64).as_str()))
    }
}

/// `PING`, the liveness probe.
pub fn ping_command() -> (r: Command)
    ensures
        r@ == seq!["PING"@],
{
    Command::new("PING")
}

/// `TYPE key`.
pub fn type_command(key: &str) -> (r: Command)
    ensures
        r@ == seq!["TYPE"@, key@],
{
    Command::new("TYPE").with(key)
}

/// `TTL key`.
pub fn ttl_command(key: &str) -> (r: Command)
    ensures
        r@ == seq!["TTL"@, key@],
{
    Command::new("TTL").with(key)
}

/// `DEL key`.
pub fn del_command(key: &str) -> (r: Command)
    ensures
        r@ == seq!["DEL"@, key@],
{
    Command::new("DEL").with(key)
}

/// `FLUSHDB`, which clears the selected database of one node.
pub fn flushdb_command() -> (r: Command)
    ensures
        r@ == seq!["FLUSHDB"@],
{
    Command::new("FLUSHDB")
}

/// `INFO`.
pub fn info_command() -> (r: Command)
    ensures
        r@ == seq!["INFO"@],
{
    Command::new("INFO")
}

/// `CLUSTER NODES`, the node listing of a cluster.
pub fn cluster_nodes_command() -> (r: Command)
    ensures
        r@ == seq!["CLUSTER"@, "NODES"@],
{
    Command::new("CLUSTER").with("NODES")
}

/// How a key enumeration is written in the audit log (the cursor left out).
pub fn scan_log_command(pattern: &str) -> (r: Command)
    ensures
        r@ == seq!["SCAN"@, "MATCH"@, pattern@],
{
    Command::new("SCAN").with("MATCH").with(pattern)
}

/// `TYPE key` and `TTL key` in one round trip.
pub fn type_and_ttl(key: &str) -> (r: crate::command::Pipeline)
    ensures
        r@ == seq![seq!["TYPE"@, key@], seq!["TTL"@, key@]],
{
    let mut p = crate::command::Pipeline::new();
    p.add(type_command(key));
    p.add(ttl_command(key));
    assert(p@ =~= seq![seq!["TYPE"@, key@], seq!["TTL"@, key@]]);
    p
}

/// The keys that matched a pattern deleted in one command; nothing to send
/// when none matched.
pub fn del_keys_command(keys: &Vec<String>) -> (r: Option<Command>)
    ensures
        keys@.len() == 0 <==> r is None,
        r is Some ==> r->0@ == seq!["DEL"@] + keys.deep_view(),
{
    if keys.len() == 0 {
        return None;
    }
    let mut c = Command::new("DEL");
    let ghost k = keys.deep_view();
    let mut i: usize = 0;
    while i < keys.len()
        invariant
            i <= keys.len(),
            k == keys.deep_view(),
            c@ =~= seq!["DEL"@] + k.subrange(0, i as int),
        decreases keys.len() - i,
    {
        c.arg(keys[i].as_str());
        i = i + 1;
    }
    assert(k.subrange(0, keys.len() as int) =~= k);
    Some(c)
}

/// The removal of one value from a key of the given type: a string goes whole,
/// a list loses one occurrence, the others the member, field or entry named.
pub open spec fn delete_value_commands(t: KeyType, key: Seq<char>, value: Seq<char>) -> Seq<Seq<char>> {
    match t {
        KeyType::String => seq!["DEL"@, key],
        KeyType::List => seq!["LREM"@, key, "1"@, value],
        KeyType::UnorderedSet => seq!["SREM"@, key, value],
        KeyType::ZSet => seq!["ZREM"@, key, value],
        KeyType::Hash => seq!["HDEL"@, key, value],
        KeyType::Stream => seq!["XDEL"@, key, value],
    }
}

/// The command that removes `value` from `key`, by the type tag `TYPE key` gave
/// (an absent value is the empty text).
pub fn del_value_command(tag: &str, key: &str, value: &Option<String>) -> (r: Result<Command, SerializeError>)
    ensures
        match key_type_of(tag@) {
            Some(t) => r is Ok && r->Ok_0@ == delete_value_commands(t, key@, text_or(*value, Seq::empty())),
            None => r is Err && r->Err_0.kind == ErrorKind::UnsupportedKeyType,
        },
{
    let t = KeyType::from_tag(tag)?;
    proof {
        reveal_strlit("");
    }
    let v = match value {
        Some(v) => v.as_str(),
        None => "",
    };
    assert(v@ =~= text_or(*value, Seq::empty()));
    let c = match t {
        KeyType::String => Command::new("DEL").with(key),
        KeyType::List => Command::new("LREM").with(key).with("1").with(v),
        KeyType::UnorderedSet => Command::new("SREM").with(key).with(v),
        KeyType::ZSet => Command::new("ZREM").with(key).with(v),
        KeyType::Hash => Command::new("HDEL").with(key).with(v),
        KeyType::Stream => Command::new("XDEL").with(key).with(v),
    };
    Ok(c)
}

/// `RENAMENX key new_key`: the rename never overwrites.
pub fn rename_command(key: &str, new_key: &str) -> (r: Command)
    ensures
        r@ == seq!["RENAMENX"@, key@, new_key@],
{
    Command::new("RENAMENX").with(key).with(new_key)
}

/// What a `RENAMENX` reply means: 0 is a destination that already exists.
pub fn rename_outcome(reply: i64) -> (r: Result<(), SerializeError>)
    ensures
        r is Ok <==> reply != 0,
        r is Err ==> r->Err_0.kind == ErrorKind::DestinationExists,
{
    if reply == 0 {
        Err(SerializeError::of_kind(ErrorKind::DestinationExists, "the new key already exists"))
    } else {
        Ok(())
    }
}

/// The command that sets a key's ttl: -1 makes it persistent, a ttl of 0 or
/// more sets the expiry in seconds, anything below -1 is refused.
pub fn set_ttl_command(key: &str, ttl: i64) -> (r: Result<Command, SerializeError>)
    ensures
        r is Err <==> ttl < -1,
        r is Err ==> r->Err_0.kind == ErrorKind::InvalidTtl,
        ttl == -1 ==> r is Ok && r->Ok_0@ == seq!["PERSIST"@, key@],
        ttl >= 0 ==> r is Ok && r->Ok_0@ == seq!["EXPIRE"@, key@, decimal_of(ttl as nat)],
{
    if ttl < -1 {
        Err(SerializeError::of_kind(ErrorKind::InvalidTtl, "ttl cannot be below -1"))
    } else if ttl == -1 {
        Ok(Command::new("PERSIST").with(key))
    } else {
        Ok(Command::new("EXPIRE").with(key).with(decimal_text(ttl as u64).as_str()))
    }
}

/// The command that counts a key's items before they are fetched; a string
/// has none (its size is its length).
pub open spec fn count_commands(t: KeyType, key: Seq<char>) -> Option<Seq<Seq<char>>> {
    match t {
        KeyType::String => None,
        KeyType::List => Some(seq!["LLEN"@, key]),
        KeyType::UnorderedSet => Some(seq!["SCARD"@, key]),
        KeyType::ZSet => Some(seq!["ZCARD"@, key]),
        KeyType::Hash => Some(seq!["HLEN"@, key]),
        KeyType::Stream => Some(seq!["XLEN"@, key]),
    }
}

pub fn count_command(t: KeyType, key: &str) -> (r: Option<Command>)
    ensures
        match count_commands(t, key@) {
            Some(c) => r is Some && r->0@ == c,
            None => r is None,
        },
{
    match t {
        KeyType::String => None,
        KeyType::List => Some(Command::new("LLEN").with(key)),
        KeyType::UnorderedSet => Some(Command::new("SCARD").with(key)),
        KeyType::ZSet => Some(Command::new("ZCARD").with(key)),
        KeyType::Hash => Some(Command::new("HLEN").with(key)),
        KeyType::Stream => Some(Command::new("XLEN").with(key)),
    }
}

/// Most stream entries fetched, the newest first.
pub const STREAM_FETCH_LIMIT: u64 = 200;

/// The command that fetches a key's content once its count is known: the whole
/// list, the sorted set by score with the scores, the newest stream entries; a
/// set or hash is walked by cursor (the cursor is not part of the command).
pub open spec fn content_commands(t: KeyType, key: Seq<char>, count: nat) -> Seq<Seq<char>> {
    let last = signed_decimal_of(count - 1);
    match t {
        KeyType::String => seq!["GET"@, key],
        KeyType::List => seq!["LRANGE"@, key, "0"@, last],
        KeyType::UnorderedSet => seq!["SSCAN"@, key, "MATCH"@, "*"@],
        KeyType::ZSet => seq!["ZRANGE"@, key, "0"@, last, "WITHSCORES"@],
        KeyType::Hash => seq!["HSCAN"@, key, "MATCH"@, "*"@],
        KeyType::Stream => seq!["XREVRANGE"@, key, "+"@, "-"@, "COUNT"@, decimal_of(STREAM_FETCH_LIMIT as nat)],
    }
}

/// The index of the last of `count` items, written out.
fn last_index_text(count: usize) -> (r: String)
    ensures
        r@ == signed_decimal_of(count - 1),
{
    if count == 0 {
        proof {
            reveal_strlit("-1");
            assert(decimal_of(1) =~= seq!['1']);
        }
        assert("-1"@ =~= signed_decimal_of(-1));
        String::from_str("-1")
    } else {
        decimal_text((count - 1) as u64)
    }
}

pub fn content_command(t: KeyType, key: &str, count: usize) -> (r: Command)
    ensures
        r@ == content_commands(t, key@, count as nat),
{
    match t {
        KeyType::String => Command::new("GET").with(key),
        KeyType::List => Command::new("LRANGE").with(key).with("0").with(last_index_text(count).as_str()),
        KeyType::UnorderedSet => Command::new("SSCAN").with(key).with("MATCH").with("*"),
        KeyType::ZSet => Command::new("ZRANGE").with(key).with("0").with(last_index_text(count).as_str()).with("WITHSCORES"),
        KeyType::Hash => Command::new("HSCAN").with(key).with("MATCH").with("*"),
        KeyType::Stream => Command::new("XREVRANGE").with(key).with("+").with("-").with("COUNT").with(decimal_text(STREAM_FETCH_LIMIT).as_str()),
    }
}

/// A key's summary from the replies to `TYPE` and `TTL`.
pub fn key_info(key: String, tag: &str, ttl: i64) -> (r: Result<KeyInfo, SerializeError>)
    ensures
        r is Ok <==> key_type_of(tag@) is Some,
        r is Err ==> r->Err_0.kind == ErrorKind::UnsupportedKeyType,
        r is Ok ==> r->Ok_0.key@ == key@ && r->Ok_0.key_type@ == tag@ && r->Ok_0.label@
            == key_type_of(tag@)->0.label_of() && r->Ok_0.ttl == ttl,
{
    let t = KeyType::from_tag(tag)?;
    Ok(KeyInfo { key, key_type: String::from_str(tag), label: String::from_str(t.label()), ttl })
}

/// Whether a value is of the variant that belongs to the type.
pub open spec fn value_matches(t: KeyType, v: RedisValue) -> bool {
    match t {
        KeyType::String => v is String,
        KeyType::List => v is List,
        KeyType::UnorderedSet => v is UnorderedSet,
        KeyType::ZSet => v is ZSet,
        KeyType::Hash => v is Hash,
        KeyType::Stream => v is Stream,
    }
}

/// A key's full detail: a string's size is its length in bytes, any other
/// key's size the count taken before its content was fetched.
pub fn key_detail(key: String, t: KeyType, ttl: i64, count: usize, value: RedisValue) -> (r: KeyContentDetail)
    requires
        value_matches(t, value),
    ensures
        r.key@ == key@,
        r.key_type@ == t.tag_of(),
        r.label@ == t.label_of(),
        r.ttl == ttl,
        r.value == value,
        value matches RedisValue::String(s) ==> r.size == vstd::utf8::encode_utf8(s@).len() as usize,
        !(value is String) ==> r.size == count,
{
    let size = match &value {
        RedisValue::String(s) => s.as_str().len(),
        _ => count,
    };
    KeyContentDetail {
        key,
        key_type: String::from_str(t.tag()),
        label: String::from_str(t.label()),
        ttl,
        size,
        value,
    }
}

/// Sorted-set members from `(member, score)` pairs.
pub fn zset_members(pairs: Vec<(String, String)>) -> (r: Vec<Z>)
    ensures
        r@.len() == pairs@.len(),
        forall|i: int|
            0 <= i < pairs@.len() ==> (#[trigger] r@[i]).member@ == pairs@[i].0@ && r@[i].score@
                == pairs@[i].1@,
{
    let mut r: Vec<Z> = Vec::new();
    let mut i: usize = 0;
    while i < pairs.len()
        invariant
            i <= pairs.len(),
            r@.len() == i,
            forall|j: int|
                0 <= j < i ==> (#[trigger] r@[j]).member@ == pairs@[j].0@ && r@[j].score@
                    == pairs@[j].1@,
        decreases pairs.len() - i,
    {
        r.push(Z::new(pairs[i].1.clone(), pairs[i].0.clone()));
        i = i + 1;
    }
    r
}

/// Hash fields from `(field, value)` pairs.
pub fn hash_fields(pairs: Vec<(String, String)>) -> (r: Vec<HashResult>)
    ensures
        r@.len() == pairs@.len(),
        forall|i: int|
            0 <= i < pairs@.len() ==> (#[trigger] r@[i]).key@ == pairs@[i].0@ && r@[i].value@
                == pairs@[i].1@,
{
    let mut r: Vec<HashResult> = Vec::new();
    let mut i: usize = 0;
    while i < pairs.len()
        invariant
            i <= pairs.len(),
            r@.len() == i,
            forall|j: int|
                0 <= j < i ==> (#[trigger] r@[j]).key@ == pairs@[j].0@ && r@[j].value@
                    == pairs@[j].1@,
        decreases pairs.len() - i,
    {
        r.push(HashResult::new(pairs[i].0.clone(), pairs[i].1.clone()));
        i = i + 1;
    }
    r
}

/// Stream entries from their ids and field/value pairs, each entry's fields
/// written as one JSON object.
pub fn stream_entries(entries: Vec<(String, Vec<(String, String)>)>) -> (r: Vec<StreamResult>)
    ensures
        r@.len() == entries@.len(),
        forall|i: int|
            0 <= i < entries@.len() ==> (#[trigger] r@[i]).id@ == entries@[i].0@ && r@[i].value@
                == crate::json::json_object_text(entries@[i].1.deep_view()),
{
    let mut r: Vec<StreamResult> = Vec::new();
    let mut i: usize = 0;
    while i < entries.len()
        invariant
            i <= entries.len(),
            r@.len() == i,
            forall|j: int|
                0 <= j < i ==> (#[trigger] r@[j]).id@ == entries@[j].0@ && r@[j].value@
                    == crate::json::json_object_text(entries@[j].1.deep_view()),
        decreases entries.len() - i,
    {
        let text = object_text(&entries[i].1);
        r.push(StreamResult::new(entries[i].0.clone(), text));
        i = i + 1;
    }
    r
}

/// The keys one more node matched, added after those already gathered.
pub fn gather_keys(gathered: &mut Vec<String>, keys: Vec<String>)
    ensures
        final(gathered).deep_view() == old(gathered).deep_view() + keys.deep_view(),
{
    let ghost start = gathered.deep_view();
    let mut i: usize = 0;
    while i < keys.len()
        invariant
            i <= keys.len(),
            gathered.deep_view() =~= start + keys.deep_view().subrange(0, i as int),
        decreases keys.len() - i,
    {
        let ghost prev = gathered.deep_view();
        gathered.push(keys[i].clone());
        assert(gathered.deep_view() =~= prev.push(keys.deep_view()[i as int]));
        i = i + 1;
    }
    assert(keys.deep_view().subrange(0, keys.len() as int) =~= keys.deep_view());
}

/// The command a terminal line sends: its first word is the verb; no command
/// when there is no word.
pub fn terminal_command(args: &Option<Vec<String>>) -> (r: Option<Command>)
    ensures
        match args {
            Some(a) => if a@.len() == 0 { r is None } else { r is Some && r->0@ == a.deep_view() },
            None => r is None,
        },
{
    match args {
        None => None,
        Some(a) => {
            if a.len() == 0 {
                return None;
            }
            let mut c = Command::new(a[0].as_str());
            let ghost w = a.deep_view();
            let mut i: usize = 1;
            while i < a.len()
                invariant
                    1 <= i <= a.len(),
                    w == a.deep_view(),
                    c@ =~= w.subrange(0, i as int),
                decreases a.len() - i,
            {
                c.arg(a[i].as_str());
                i = i + 1;
            }
            assert(w.subrange(0, a.len() as int) =~= w);
            Some(c)
        },
    }
}

/// The type a write verb gives a key that it creates.
pub open spec fn created_type(verb: Seq<char>) -> Option<KeyType> {
    if verb == "SET"@ {
        Some(KeyType::String)
    } else if verb == "LPUSH"@ || verb == "RPUSH"@ {
        Some(KeyType::List)
    } else if verb == "SADD"@ {
        Some(KeyType::UnorderedSet)
    } else if verb == "ZADD"@ {
        Some(KeyType::ZSet)
    } else if verb == "HSET"@ {
        Some(KeyType::Hash)
    } else if verb == "XADD"@ {
        Some(KeyType::Stream)
    } else {
        None
    }
}

/// Writing a key that does not exist yet (ttl -2) starts with a verb that
/// creates the key with the type the caller named.
pub proof fn lemma_fresh_write_type(info: AddKeyInfo)
    requires
        set_key_plan(info, -2) is Some,
    ensures
        created_type(set_key_plan(info, -2)->0[0][0]) == key_type_of(info.key_type@),
{
    reveal_strlit("SET");
    reveal_strlit("LPUSH");
    reveal_strlit("RPUSH");
    reveal_strlit("SADD");
    reveal_strlit("ZADD");
    reveal_strlit("HSET");
    reveal_strlit("XADD");
    reveal_strlit("HDEL");
    reveal_strlit("EXPIRE");
    reveal_strlit("PERSIST");
    let t = key_type_of(info.key_type@)->0;
    let first = set_key_plan(info, -2)->0[0][0];
    if t == KeyType::String {
        assert(first == "SET"@);
    } else if t == KeyType::List {
        assert(first == "LPUSH"@);
        assert("LPUSH"@ != "SET"@);
    } else if t == KeyType::UnorderedSet {
        assert(first == "SADD"@);
        assert("SADD"@ != "SET"@);
        assert("SADD"@ != "LPUSH"@ && "SADD"@ != "RPUSH"@);
    } else if t == KeyType::ZSet {
        assert(first == "ZADD"@);
        assert("ZADD"@[0] != "SADD"@[0]);
        assert("ZADD"@ != "SET"@ && "ZADD"@ != "SADD"@);
        assert("ZADD"@ != "LPUSH"@ && "ZADD"@ != "RPUSH"@);
    } else if t == KeyType::Hash {
        assert(first == "HSET"@);
        assert("HSET"@[0] != "SADD"@[0] && "HSET"@[0] != "ZADD"@[0]);
        assert("HSET"@ != "SET"@ && "HSET"@ != "SADD"@ && "HSET"@ != "ZADD"@);
        assert("HSET"@ != "LPUSH"@ && "HSET"@ != "RPUSH"@);
    } else {
        let f = json_string_map(info.value@)->0;
        assert(first == "XADD"@);
        assert("XADD"@[0] != "SADD"@[0] && "XADD"@[0] != "ZADD"@[0] && "XADD"@[0] != "HSET"@[0]);
        assert("XADD"@ != "SET"@ && "XADD"@ != "SADD"@ && "XADD"@ != "ZADD"@ && "XADD"@ != "HSET"@);
        assert("XADD"@ != "LPUSH"@ && "XADD"@ != "RPUSH"@);
    }
}

/// A write never loses the key's expiry: a ttl of 0 or more is set again by
/// the last command, a persistent key gets no expiry command at all, and a new
/// key is made persistent by the last command.
pub proof fn lemma_write_keeps_ttl(info: AddKeyInfo, expired: int)
    requires
        set_key_plan(info, expired) is Some,
    ensures
        expired >= 0 ==> set_key_plan(info, expired)->0.last() == seq![
            "EXPIRE"@,
            info.key@,
            signed_decimal_of(expired),
        ],
        expired == -2 ==> set_key_plan(info, expired)->0.last() == seq!["PERSIST"@, info.key@],
        expired == -1 ==> forall|i: int|
            0 <= i < set_key_plan(info, expired)->0.len() ==> (#[trigger] set_key_plan(
                info,
                expired,
            )->0[i])[0] != "EXPIRE"@ && set_key_plan(info, expired)->0[i][0] != "PERSIST"@,
{
    reveal_strlit("SET");
    reveal_strlit("LPUSH");
    reveal_strlit("RPUSH");
    reveal_strlit("SADD");
    reveal_strlit("ZADD");
    reveal_strlit("HSET");
    reveal_strlit("XADD");
    reveal_strlit("HDEL");
    reveal_strlit("EXPIRE");
    reveal_strlit("PERSIST");
    let t = key_type_of(info.key_type@)->0;
    let f = if t == KeyType::Stream {
        json_string_map(info.value@)->0
    } else {
        Seq::empty()
    };
    let w = write_commands(t, info, expired, f);
    assert(set_key_plan(info, expired)->0 == w + ttl_restore_commands(info.key@, expired));
    if expired == -1 {
        assert(ttl_restore_commands(info.key@, expired) =~= Seq::<Seq<Seq<char>>>::empty());
        assert(w + ttl_restore_commands(info.key@, expired) =~= w);
        assert forall|i: int| 0 <= i < w.len() implies (#[trigger] w[i])[0] != "EXPIRE"@ && w[i][0]
            != "PERSIST"@ by {
            if t == KeyType::Hash {
                assert(w[i][0] == "HSET"@ || w[i][0] == "HDEL"@);
            } else {
                assert(i == 0);
            }
            assert(w[i][0].len() <= 5);
        }
    }
}

} // verus!
