//! The cluster health prober: each host's liveness and the cluster's identity.
use vstd::prelude::*;
use crate::http::{is_success, HttpReply, ReplyV};
use crate::json::{field, json_get, json_text, JsonV, parse_json};

verus! {

/// Whether a host answered its liveness probe.
#[derive(Clone, Copy, Debug, PartialEq, Eq, Structural)]
pub enum UriState {
    Online,
    Offline,
}

impl UriState {
    /// The label under which the state is shown.
    pub fn as_str(&self) -> (r: &'static str)
        ensures
            r@ == (match *self {
                UriState::Online => "Online"@,
                UriState::Offline => "Offline"@,
            }),
    {
        match self {
            UriState::Online => "Online",
            UriState::Offline => "Offline",
        }
    }
}

/// One row of the health report.
#[derive(Debug, PartialEq)]
pub struct UriStatus {
    pub uri: String,
    pub state: UriState,
    /// The cluster identity that the host reported; empty where it reported none.
    pub id: String,
}

/// The model of a [`UriStatus`].
pub struct UriStatusV {
    pub uri: Seq<char>,
    pub state: UriState,
    pub id: Seq<char>,
}

impl View for UriStatus {
    type V = UriStatusV;

    open spec fn view(&self) -> UriStatusV {
        UriStatusV { uri: self.uri@, state: self.state, id: self.id@ }
    }
}

/// The cluster identity in a probe's body: the string `kafka_cluster_id` of
/// a JSON object, or empty where there is none.
pub open spec fn cluster_id_of(body: Seq<char>) -> Seq<char> {
    match json_text(body) {
        Some(doc) => match field(doc, "kafka_cluster_id"@) {
            Some(JsonV::Str(s)) => s,
            _ => Seq::empty(),
        },
        None => Seq::empty(),
    }
}

/// A host is online where its probe got a success-class answer; every other
/// outcome (transport failure, any other status) is offline.
pub open spec fn uri_status_of(host: Seq<char>, r: ReplyV) -> UriStatusV {
    match r {
        ReplyV::Response(status, body) => if is_success(status) {
            UriStatusV { uri: host, state: UriState::Online, id: cluster_id_of(body) }
        } else {
            UriStatusV { uri: host, state: UriState::Offline, id: Seq::empty() }
        },
        ReplyV::Transport(_) => UriStatusV { uri: host, state: UriState::Offline, id: Seq::empty() },
    }
}

fn cluster_id(body: &str) -> (r: String)
    ensures
        r@ == cluster_id_of(body@),
{
    match parse_json(body) {
        Some(doc) => match json_get(&doc, "kafka_cluster_id") {
            Some(v) => match v.as_str() {
                Some(s) => s.to_owned(),
                None => String::new(),
            },
            None => String::new(),
        },
        None => String::new(),
    }
}

/// Classifies one host from the outcome of its probe.
pub fn get_uri_status(host: &str, reply: &HttpReply) -> (r: UriStatus)
    ensures
        r@ == uri_status_of(host@, reply@),
{
    match reply {
        HttpReply::Response { status, body } => {
            if 200 <= *status && *status < 300 {
                UriStatus { uri: host.to_owned(), state: UriState::Online, id: cluster_id(body.as_str()) }
            } else {
                UriStatus { uri: host.to_owned(), state: UriState::Offline, id: String::new() }
            }
        },
        HttpReply::Transport { .. } => UriStatus { uri: host.to_owned(), state: UriState::Offline, id: String::new() },
    }
}

/// The health report: one row per probed host, in the order given, each
/// from that host's own probe outcome.
pub fn hosts_status(probes: &Vec<(String, HttpReply)>) -> (r: Vec<UriStatus>)
    ensures
        r@.len() == probes@.len(),
        forall|i: int| 0 <= i < r@.len() ==> (#[trigger] r@[i])@ == uri_status_of(probes@[i].0@, probes@[i].1@),
{
    let mut out: Vec<UriStatus> = Vec::new();
    let mut i: usize = 0;
    while i < probes.len()
        invariant
            i <= probes.len(),
            out@.len() == i,
            forall|j: int| 0 <= j < i ==> (#[trigger] out@[j])@ == uri_status_of(probes@[j].0@, probes@[j].1@),
        decreases probes.len() - i,
    {
        let s = get_uri_status(probes[i].0.as_str(), &probes[i].1);
        out.push(s);
        i = i + 1;
    }
    out
}

/// The first non-empty identity among the rows, or empty.
pub open spec fn first_id(rows: Seq<UriStatusV>) -> Seq<char>
    decreases rows.len(),
{
    if rows.len() == 0 {
        Seq::empty()
    } else if rows[0].id.len() > 0 {
        rows[0].id
    } else {
        first_id(rows.drop_first())
    }
}

/// The cluster identity to show once above the report: the first that a
/// host reported.
pub fn reported_cluster_id(rows: &Vec<UriStatus>) -> (r: String)
    ensures
        r@ == first_id(rows@.map_values(|s: UriStatus| s@)),
{
    let ghost vs = rows@.map_values(|s: UriStatus| s@);
    let mut i: usize = 0;
    proof {
        assert(vs.skip(0) =~= vs);
    }
    while i < rows.len()
        invariant
            vs == rows@.map_values(|s: UriStatus| s@),
            i <= rows.len(),
            first_id(vs) == first_id(vs.skip(i as int)),
        decreases rows.len() - i,
    {
        proof {
            assert(vs.skip(i as int).drop_first() =~= vs.skip(i + 1));
            assert(vs.skip(i as int)[0] == vs[i as int]);
        }
        if !rows[i].id.as_str().is_empty() {
            proof {
                assert(rows[i as int].id@.len() > 0);
            }
            return rows[i].id.clone();
        }
        i = i + 1;
    }
    proof {
        assert(vs.skip(i as int) =~= Seq::<UriStatusV>::empty());
    }
    String::new()
}

} // verus!
