use vstd::prelude::*;

use crate::error::{ErrorKind, SerializeError};
use crate::text::{
    after_char, before_char, contains_str, contains_text, decimal_value, parse_decimal,
    split_once_char,
};

verus! {

/// `csv::Error`, carried opaque: the reason the reader refused a text.
#[verifier::external_type_specification]
#[verifier::external_body]
pub struct ExCsvError(csv::Error);

/// The records of a text read as space-separated fields, headerless, of any
/// number of fields per line; none when the reader refuses the text.
pub uninterp spec fn space_records(text: Seq<char>) -> Option<Seq<Seq<Seq<char>>>>;

/// Relies on `csv::ReaderBuilder` with a space delimiter, no headers, flexible
/// record lengths and no doubled quotes: the records it reads, each as its fields.
#[verifier::external_body]
fn read_space_records(text: &str) -> (r: Result<Vec<Vec<String>>, csv::Error>)
    ensures
        match space_records(text@) {
            Some(recs) => r is Ok && r->Ok_0.deep_view() == recs,
            None => r is Err,
        },
{
    csv::ReaderBuilder::new().has_headers(false).delimiter(b' ').double_quote(false).flexible(
        true,
    ).from_reader(text.as_bytes()).records().map(
        |rec| rec.map(|fields| fields.iter().map(|f| f.to_string()).collect()),
    ).collect()
}

/// One node of a cluster, as one line of its node listing gives it.
#[derive(Debug, Clone)]
pub struct NodeInfo {
    pub id: String,
    /// `host:port@busport`.
    pub host: String,
    pub flags: String,
    pub master_id: String,
    pub ping_sent: u64,
    pub pong_sent: u64,
    pub config_epoch: u64,
    pub link_state: String,
    pub slot: Option<u64>,
}

/// A node's fields as values.
pub struct NodeView {
    pub id: Seq<char>,
    pub host: Seq<char>,
    pub flags: Seq<char>,
    pub master_id: Seq<char>,
    pub ping_sent: u64,
    pub pong_sent: u64,
    pub config_epoch: u64,
    pub link_state: Seq<char>,
    pub slot: Option<u64>,
}

impl View for NodeInfo {
    type V = NodeView;

    open spec fn view(&self) -> NodeView {
        NodeView {
            id: self.id@,
            host: self.host@,
            flags: self.flags@,
            master_id: self.master_id@,
            ping_sent: self.ping_sent,
            pong_sent: self.pong_sent,
            config_epoch: self.config_epoch,
            link_state: self.link_state@,
            slot: self.slot,
        }
    }
}

/// A field read as a `u64`.
pub open spec fn u64_field(f: Seq<char>) -> Option<u64> {
    match decimal_value(f, u64::MAX as nat) {
        Some(v) => Some(v as u64),
        None => None,
    }
}

/// The node a record describes: eight fields at least, the fifth to seventh
/// numbers; a ninth field is the slot when it is a number.
pub open spec fn node_of_record(rec: Seq<Seq<char>>) -> Option<NodeView> {
    if rec.len() >= 8 && u64_field(rec[4]) is Some && u64_field(rec[5]) is Some && u64_field(
        rec[6],
    ) is Some {
        Some(
            NodeView {
                id: rec[0],
                host: rec[1],
                flags: rec[2],
                master_id: rec[3],
                ping_sent: u64_field(rec[4])->0,
                pong_sent: u64_field(rec[5])->0,
                config_epoch: u64_field(rec[6])->0,
                link_state: rec[7],
                slot: if rec.len() > 8 {
                    u64_field(rec[8])
                } else {
                    None
                },
            },
        )
    } else {
        None
    }
}

/// The nodes of the records that describe one, in order; the others are skipped.
pub open spec fn nodes_of_records(recs: Seq<Seq<Seq<char>>>) -> Seq<NodeView>
    decreases recs.len(),
{
    if recs.len() == 0 {
        Seq::empty()
    } else {
        nodes_of_records(recs.drop_last()) + match node_of_record(recs.last()) {
            Some(n) => seq![n],
            None => Seq::empty(),
        }
    }
}

/// The host of an address `host:port@busport`: what stands before the first `:`.
pub open spec fn host_of(addr: Seq<char>) -> Seq<char> {
    before_char(addr, ':')
}

/// The port of an address: between the first and a second `:`, cut at `@`;
/// the default when it is missing or no port number.
pub open spec fn port_of(addr: Seq<char>, default_port: u16) -> u16 {
    match after_char(addr, ':') {
        Some(rest) => match decimal_value(before_char(before_char(rest, ':'), '@'), u16::MAX as nat) {
            Some(p) => p as u16,
            None => default_port,
        },
        None => default_port,
    }
}

/// Whether a node's flags name it a master.
pub open spec fn is_master_node(n: NodeView) -> bool {
    contains_text(n.flags, "master"@)
}

fn u64_of(f: &str) -> (r: Option<u64>)
    ensures
        r == u64_field(f@),
{
    parse_decimal(f, u64::MAX)
}

impl NodeInfo {
    /// The node a record of the listing describes.
    pub fn from_record(rec: &Vec<String>) -> (r: Result<NodeInfo, SerializeError>)
        ensures
            match node_of_record(rec.deep_view()) {
                Some(n) => r is Ok && r->Ok_0@ == n,
                None => r is Err && r->Err_0.kind == ErrorKind::TopologyParse,
            },
    {
        let ghost v = rec.deep_view();
        if rec.len() < 8 {
            return Err(SerializeError::of_kind(ErrorKind::TopologyParse, "a node line has too few fields"));
        }
        let ping = u64_of(rec[4].as_str());
        let pong = u64_of(rec[5].as_str());
        let epoch = u64_of(rec[6].as_str());
        match (ping, pong, epoch) {
            (Some(ping_sent), Some(pong_sent), Some(config_epoch)) => {
                let slot = if rec.len() > 8 {
                    u64_of(rec[8].as_str())
                } else {
                    None
                };
                let n = NodeInfo {
                    id: rec[0].clone(),
                    host: rec[1].clone(),
                    flags: rec[2].clone(),
                    master_id: rec[3].clone(),
                    ping_sent,
                    pong_sent,
                    config_epoch,
                    link_state: rec[7].clone(),
                    slot,
                };
                assert(n@ == node_of_record(v)->0);
                Ok(n)
            },
            _ => Err(SerializeError::of_kind(ErrorKind::TopologyParse, "a node line holds a field that is no number")),
        }
    }

    /// The same node, its texts copied.
    pub fn duplicate(&self) -> (r: NodeInfo)
        ensures
            r@ == self@,
    {
        NodeInfo {
            id: self.id.clone(),
            host: self.host.clone(),
            flags: self.flags.clone(),
            master_id: self.master_id.clone(),
            ping_sent: self.ping_sent,
            pong_sent: self.pong_sent,
            config_epoch: self.config_epoch,
            link_state: self.link_state.clone(),
            slot: self.slot,
        }
    }

    /// The node's host and port; the default port when the address gives none.
    pub fn addr_or_default_port(&self, default_port: u16) -> (r: (String, u16))
        ensures
            r.0@ == host_of(self.host@),
            r.1 == port_of(self.host@, default_port),
    {
        let (host, rest) = split_once_char(self.host.as_str(), ':');
        let port = match rest {
            Some(rest) => {
                let (port_part, _) = split_once_char(rest.as_str(), ':');
                let (port_text, _) = split_once_char(port_part.as_str(), '@');
                match parse_decimal(port_text.as_str(), 65535) {
                    Some(p) => p as u16,
                    None => default_port,
                }
            },
            None => default_port,
        };
        (host, port)
    }

    /// Whether the flags hold `master`.
    pub fn is_master(&self) -> (r: bool)
        ensures
            r == is_master_node(self@),
    {
        contains_str(self.flags.as_str(), "master")
    }
}

/// The nodes of a cluster, in the order of its listing.
#[derive(Debug)]
pub struct NodesInfo {
    nodes: Vec<NodeInfo>,
}

impl View for NodesInfo {
    type V = Seq<NodeView>;

    closed spec fn view(&self) -> Seq<NodeView> {
        self.nodes@.map_values(|n: NodeInfo| n@)
    }
}

impl NodesInfo {
    /// The nodes the records describe, in order; a record that describes none
    /// is skipped.
    pub fn from_records(recs: &Vec<Vec<String>>) -> (r: NodesInfo)
        ensures
            r@ == nodes_of_records(recs.deep_view()),
    {
        let ghost all = recs.deep_view();
        let mut nodes: Vec<NodeInfo> = Vec::new();
        let mut i: usize = 0;
        while i < recs.len()
            invariant
                i <= recs.len(),
                all == recs.deep_view(),
                nodes@.map_values(|n: NodeInfo| n@) =~= nodes_of_records(all.subrange(0, i as int)),
            decreases recs.len() - i,
        {
            proof {
                assert(all.subrange(0, i as int + 1).drop_last() =~= all.subrange(0, i as int));
                assert(all.subrange(0, i as int + 1).last() == recs[i as int].deep_view());
            }
            match NodeInfo::from_record(&recs[i]) {
                Ok(n) => {
                    nodes.push(n);
                },
                Err(_) => {},
            }
            i = i + 1;
        }
        assert(all.subrange(0, recs.len() as int) =~= all);
        NodesInfo { nodes }
    }

    /// Reads a cluster's node listing, one node per line.
    pub fn parse(text: &str) -> (r: Result<NodesInfo, SerializeError>)
        ensures
            match space_records(text@) {
                Some(recs) => r is Ok && r->Ok_0@ == nodes_of_records(recs),
                None => r is Err && r->Err_0.kind == ErrorKind::TopologyParse,
            },
    {
        match read_space_records(text) {
            Ok(recs) => Ok(NodesInfo::from_records(&recs)),
            Err(_) => Err(SerializeError::of_kind(ErrorKind::TopologyParse, "the node listing cannot be read")),
        }
    }

    /// The master nodes, in order.
    pub fn master_nodes(&self) -> (r: Vec<NodeInfo>)
        ensures
            r@.map_values(|n: NodeInfo| n@) == self@.filter(|n: NodeView| is_master_node(n)),
    {
        let ghost all = self@;
        let mut r: Vec<NodeInfo> = Vec::new();
        let mut i: usize = 0;
        while i < self.nodes.len()
            invariant
                i <= self.nodes.len(),
                all == self@,
                all.len() == self.nodes@.len(),
                r@.map_values(|n: NodeInfo| n@) =~= all.subrange(0, i as int).filter(
                    |n: NodeView| is_master_node(n),
                ),
            decreases self.nodes.len() - i,
        {
            proof {
                let next = all.subrange(0, i as int + 1);
                assert(next.drop_last() =~= all.subrange(0, i as int));
                assert(next.last() == self.nodes@[i as int]@);
                next.filter_lemma(|n: NodeView| is_master_node(n));
                reveal(Seq::filter);
            }
            if self.nodes[i].is_master() {
                r.push(self.nodes[i].duplicate());
            }
            i = i + 1;
        }
        assert(all.subrange(0, self.nodes.len() as int) =~= all);
        r
    }

    /// All nodes, in order.
    pub fn nodes(&self) -> (r: Vec<NodeInfo>)
        ensures
            r@.map_values(|n: NodeInfo| n@) == self@,
    {
        let mut r: Vec<NodeInfo> = Vec::new();
        let mut i: usize = 0;
        while i < self.nodes.len()
            invariant
                i <= self.nodes.len(),
                r@.map_values(|n: NodeInfo| n@) =~= self@.subrange(0, i as int),
            decreases self.nodes.len() - i,
        {
            let ghost prev = r@.map_values(|n: NodeInfo| n@);
            r.push(self.nodes[i].duplicate());
            assert(r@.map_values(|n: NodeInfo| n@) =~= prev.push(self@[i as int]));
            assert(self@.subrange(0, i as int + 1) =~= self@.subrange(0, i as int).push(self@[i as int]));
            i = i + 1;
        }
        assert(self@.subrange(0, self.nodes.len() as int) =~= self@);
        r
    }

    /// The host and port of each master, in order, a missing port read as the default.
    pub fn master_addrs(&self, default_port: u16) -> (r: Vec<(String, u16)>)
        ensures
            r@.map_values(|a: (String, u16)| (a.0@, a.1)) == self@.filter(
                |n: NodeView| is_master_node(n),
            ).map_values(|n: NodeView| (host_of(n.host), port_of(n.host, default_port))),
    {
        let masters = self.master_nodes();
        let ghost m = masters@.map_values(|n: NodeInfo| n@);
        let mut r: Vec<(String, u16)> = Vec::new();
        let mut i: usize = 0;
        while i < masters.len()
            invariant
                i <= masters.len(),
                m == masters@.map_values(|n: NodeInfo| n@),
                r@.map_values(|a: (String, u16)| (a.0@, a.1)) =~= m.subrange(0, i as int).map_values(
                    |n: NodeView| (host_of(n.host), port_of(n.host, default_port)),
                ),
            decreases masters.len() - i,
        {
            let ghost prev = r@.map_values(|a: (String, u16)| (a.0@, a.1));
            let a = masters[i].addr_or_default_port(default_port);
            r.push(a);
            proof {
                let f = |n: NodeView| (host_of(n.host), port_of(n.host, default_port));
                assert(m[i as int] == masters@[i as int]@);
                assert(r@.map_values(|a: (String, u16)| (a.0@, a.1)) =~= prev.push(f(m[i as int])));
                assert(m.subrange(0, i as int + 1).map_values(f) =~= m.subrange(0, i as int).map_values(f).push(f(m[i as int])));
            }
            i = i + 1;
        }
        assert(m.subrange(0, masters.len() as int) =~= m);
        r
    }
}

} // verus!
