use vstd::prelude::*;

verus! {

/// The kinds of failure an operation can report.
#[derive(Debug, Clone, Copy, PartialEq, Eq, Structural)]
pub enum ErrorKind {
    /// The transport failed: refused, timed out, authentication or protocol error.
    Connection,
    /// No session is registered under the id.
    SessionNotFound,
    /// The key's type tag is none of string, list, set, zset, hash, stream.
    UnsupportedKeyType,
    /// A ttl below -1 was asked for.
    InvalidTtl,
    /// A cluster node listing could not be read.
    TopologyParse,
    /// A value could not be read (a stream entry that is no JSON object of strings).
    ValueParse,
    /// A rename found its destination key already present.
    DestinationExists,
}

/// An error handed back to the caller: its kind and a readable message.
#[derive(Debug, Clone)]
pub struct SerializeError {
    pub kind: ErrorKind,
    pub message: String,
}

impl SerializeError {
    pub fn new(kind: ErrorKind, message: String) -> (r: SerializeError)
        ensures
            r.kind == kind,
            r.message@ == message@,
    {
        SerializeError { kind, message }
    }

    /// An error of the given kind with a fixed message.
    pub fn of_kind(kind: ErrorKind, message: &str) -> (r: SerializeError)
        ensures
            r.kind == kind,
            r.message@ == message@,
    {
        SerializeError { kind, message: String::from_str(message) }
    }

    /// The message as a string, as shown to the operator.
    pub fn text(&self) -> (r: String)
        ensures
            r@ == self.message@,
    {
        self.message.clone()
    }
}

} // verus!
