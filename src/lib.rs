//! Session engine of a key-value store client: session registry, bounded command
//! audit log, cluster topology parsing and the type-aware key operations, each
//! operation written as the commands it sends and the decisions it takes on the
//! replies.
pub mod command;
pub mod config;
pub mod error;
pub mod history;
pub mod json;
pub mod keyops;
pub mod model;
pub mod node_info;
pub mod reply;
pub mod state;
pub mod text;

pub use command::{CmdLog, Command, Pipeline};
pub use config::RedisConfig;
pub use error::{ErrorKind, SerializeError};
pub use history::{History, EVICTED_BATCH, MAX_HISTORY};
pub use keyops::KeyType;
pub use model::{
    AddKeyInfo, HashResult, KeyContentDetail, KeyInfo, RedisLog, RedisValue, StreamResult, Z,
};
pub use node_info::{NodeInfo, NodesInfo};
pub use reply::{parse_result, JsonValue, ReplyValue};
pub use state::{Redis, RedisInstance};
pub use text::{decimal_text, parse_decimal, signed_decimal_text};
