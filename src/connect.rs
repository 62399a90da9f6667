//! Connectors, their states and statuses, and the decoders that read them
//! out of the cluster API's JSON replies.
use vstd::prelude::*;
use crate::decode::{
    array_field, document, field_at, get_array, get_field, get_opt_str, get_str, get_uint,
    lemma_prepend_done, lemma_prepend_empty, lemma_prepend_step, opt_str_field, prepend,
    read_document, str_field, uint_field, DecodeError, DecodeFault, JsonKind,
};
use crate::json::{field, json_map_members, json_view, JsonV};
use crate::http::{
    bool_param, check_reply, join, join_path, outcome, reply_body, reply_failure,
    ApiError, ApiFault, HttpReply, Method, ReplyV, Request,
};
use crate::text::str_eq;
use vstd::string::*;

verus! {

/// The name of a connector.
#[derive(Clone, Debug, PartialEq)]
pub struct ConnectorName(pub String);

impl View for ConnectorName {
    type V = Seq<char>;

    open spec fn view(&self) -> Seq<char> {
        self.0@
    }
}

/// The state of a connector or of one of its tasks.
#[derive(Clone, Copy, Debug, PartialEq, Eq, Structural)]
pub enum State {
    Running,
    Failed,
    Unassigned,
    Paused,
    Restarting,
}

/// Whether a connector reads from (`Source`) or writes to (`Sink`) the
/// stream platform.
#[derive(Clone, Copy, Debug, PartialEq, Eq, Structural)]
pub enum ConnectorType {
    Sink,
    Source,
}

/// The token that the API uses for a state.
pub open spec fn state_token(s: State) -> Seq<char> {
    match s {
        State::Running => "RUNNING"@,
        State::Failed => "FAILED"@,
        State::Unassigned => "UNASSIGNED"@,
        State::Paused => "PAUSED"@,
        State::Restarting => "RESTARTING"@,
    }
}

/// The state that an API token names, if any.
pub open spec fn parse_state(t: Seq<char>) -> Option<State> {
    if t == "RUNNING"@ {
        Some(State::Running)
    } else if t == "PAUSED"@ {
        Some(State::Paused)
    } else if t == "UNASSIGNED"@ {
        Some(State::Unassigned)
    } else if t == "FAILED"@ {
        Some(State::Failed)
    } else if t == "RESTARTING"@ {
        Some(State::Restarting)
    } else {
        None
    }
}

/// The token that the API uses on the wire for a connector type.
pub open spec fn type_token(t: ConnectorType) -> Seq<char> {
    match t {
        ConnectorType::Sink => "sink"@,
        ConnectorType::Source => "source"@,
    }
}

/// The connector type that a wire token names, if any (the tokens are lower case).
pub open spec fn parse_type(t: Seq<char>) -> Option<ConnectorType> {
    if t == "sink"@ {
        Some(ConnectorType::Sink)
    } else if t == "source"@ {
        Some(ConnectorType::Source)
    } else {
        None
    }
}

/// The upper-case label under which a connector type is shown.
pub open spec fn type_label(t: ConnectorType) -> Seq<char> {
    match t {
        ConnectorType::Sink => "SINK"@,
        ConnectorType::Source => "SOURCE"@,
    }
}

impl State {
    /// Reads an API token; any text but the five upper-case tokens is refused.
    pub fn from_str(input: &str) -> (r: Option<State>)
        ensures
            r == parse_state(input@),
    {
        if str_eq(input, "RUNNING") {
            Some(State::Running)
        } else if str_eq(input, "PAUSED") {
            Some(State::Paused)
        } else if str_eq(input, "UNASSIGNED") {
            Some(State::Unassigned)
        } else if str_eq(input, "FAILED") {
            Some(State::Failed)
        } else if str_eq(input, "RESTARTING") {
            Some(State::Restarting)
        } else {
            None
        }
    }

    /// The API token of the state.
    pub fn as_str(&self) -> (r: &'static str)
        ensures
            r@ == state_token(*self),
    {
        match self {
            State::Running => "RUNNING",
            State::Failed => "FAILED",
            State::Paused => "PAUSED",
            State::Unassigned => "UNASSIGNED",
            State::Restarting => "RESTARTING",
        }
    }
}

impl ConnectorType {
    /// Reads a wire token: `sink` or `source`, in lower case.
    pub fn from_str(input: &str) -> (r: Option<ConnectorType>)
        ensures
            r == parse_type(input@),
    {
        if str_eq(input, "sink") {
            Some(ConnectorType::Sink)
        } else if str_eq(input, "source") {
            Some(ConnectorType::Source)
        } else {
            None
        }
    }

    /// The wire token of the type.
    pub fn token(&self) -> (r: &'static str)
        ensures
            r@ == type_token(*self),
    {
        match self {
            ConnectorType::Sink => "sink",
            ConnectorType::Source => "source",
        }
    }

    /// The upper-case label under which the type is shown.
    pub fn as_str(&self) -> (r: &'static str)
        ensures
            r@ == type_label(*self),
    {
        match self {
            ConnectorType::Sink => "SINK",
            ConnectorType::Source => "SOURCE",
        }
    }
}

/// One row of the verbose connector listing.
#[derive(Debug, PartialEq)]
pub struct VerboseConnector {
    pub name: ConnectorName,
    pub state: State,
    pub tasks: usize,
    pub connector_type: ConnectorType,
    pub worker_id: String,
}

/// The model of a [`VerboseConnector`].
pub struct VerboseRow {
    pub name: Seq<char>,
    pub state: State,
    pub tasks: nat,
    pub connector_type: ConnectorType,
    pub worker_id: Seq<char>,
}

impl View for VerboseConnector {
    type V = VerboseRow;

    open spec fn view(&self) -> VerboseRow {
        VerboseRow {
            name: self.name@,
            state: self.state,
            tasks: self.tasks as nat,
            connector_type: self.connector_type,
            worker_id: self.worker_id@,
        }
    }
}

/// The listing row of the connector `name` from its entry in the verbose
/// listing: the length of `status.tasks`, the token at
/// `status.connector.state`, the text at `status.connector.worker_id` and the
/// token at `status.type`, checked in that order.
pub open spec fn verbose_row(name: Seq<char>, entry: JsonV) -> Result<VerboseRow, DecodeFault> {
    match field_at(entry, "status"@, "status"@) {
        Err(e) => Err(e),
        Ok(status) => match array_field(status, "tasks"@, "status.tasks"@) {
            Err(e) => Err(e),
            Ok(tasks) => match field_at(status, "connector"@, "status.connector"@) {
                Err(e) => Err(e),
                Ok(conn) => match str_field(conn, "state"@, "status.connector.state"@) {
                    Err(e) => Err(e),
                    Ok(state_text) => match parse_state(state_text) {
                        None => Err(DecodeFault::UnknownValue("status.connector.state"@, state_text)),
                        Some(state) => match str_field(conn, "worker_id"@, "status.connector.worker_id"@) {
                            Err(e) => Err(e),
                            Ok(worker_id) => match str_field(status, "type"@, "status.type"@) {
                                Err(e) => Err(e),
                                Ok(type_text) => match parse_type(type_text) {
                                    None => Err(DecodeFault::UnknownValue("status.type"@, type_text)),
                                    Some(connector_type) => Ok(
                                        VerboseRow {
                                            name,
                                            state,
                                            tasks: tasks.len(),
                                            connector_type,
                                            worker_id,
                                        },
                                    ),
                                },
                            },
                        },
                    },
                },
            },
        },
    }
}

/// The rows of the listing's members, in order, or the first member's error.
pub open spec fn verbose_rows(members: Seq<(Seq<char>, JsonV)>) -> Result<Seq<VerboseRow>, DecodeFault>
    decreases members.len(),
{
    if members.len() == 0 {
        Ok(Seq::empty())
    } else {
        match verbose_rows(members.drop_last()) {
            Err(e) => Err(e),
            Ok(rows) => match verbose_row(members.last().0, members.last().1) {
                Err(e) => Err(e),
                Ok(row) => Ok(rows.push(row)),
            },
        }
    }
}

/// The verbose listing that a document holds: an object keyed by connector
/// name; an empty array is an empty listing too.
pub open spec fn verbose_listing(doc: JsonV) -> Result<Seq<VerboseRow>, DecodeFault> {
    match doc {
        JsonV::Object(members) => verbose_rows(members),
        JsonV::Array(items) => if items.len() == 0 {
            Ok(Seq::empty())
        } else {
            Err(DecodeFault::WrongKind(Seq::empty(), JsonKind::Object))
        },
        _ => Err(DecodeFault::WrongKind(Seq::empty(), JsonKind::Object)),
    }
}

/// The verbose listing that a reply body holds.
pub open spec fn verbose_listing_text(body: Seq<char>) -> Result<Seq<VerboseRow>, DecodeFault> {
    match document(body) {
        Err(e) => Err(e),
        Ok(doc) => verbose_listing(doc),
    }
}

/// Once a prefix of the members fails, every longer prefix fails the same way.
proof fn lemma_rows_error_persists(ms: Seq<(Seq<char>, JsonV)>, k: int, n: int)
    requires
        0 <= k <= n <= ms.len(),
        verbose_rows(ms.subrange(0, k)) is Err,
    ensures
        verbose_rows(ms.subrange(0, n)) == verbose_rows(ms.subrange(0, k)),
    decreases n - k,
{
    if n > k {
        lemma_rows_error_persists(ms, k, n - 1);
        assert(ms.subrange(0, n).drop_last() =~= ms.subrange(0, n - 1));
    }
}

/// Decodes one entry of the verbose listing.
pub fn decode_verbose_entry(name: &String, entry: &serde_json::Value) -> (r: Result<VerboseConnector, DecodeError>)
    ensures
        match r {
            Ok(c) => verbose_row(name@, json_view(*entry)) == Ok::<VerboseRow, DecodeFault>(c@),
            Err(e) => verbose_row(name@, json_view(*entry)) == Err::<VerboseRow, DecodeFault>(e@),
        },
{
    let status = get_field(entry, "status", "status")?;
    let tasks = get_array(status, "tasks", "status.tasks")?;
    let conn = get_field(status, "connector", "status.connector")?;
    let state_text = get_str(conn, "state", "status.connector.state")?;
    let state = match State::from_str(state_text.as_str()) {
        Some(s) => s,
        None => {
            return Err(DecodeError::UnknownValue { path: "status.connector.state".to_owned(), value: state_text });
        },
    };
    let worker_id = get_str(conn, "worker_id", "status.connector.worker_id")?;
    let type_text = get_str(status, "type", "status.type")?;
    let connector_type = match ConnectorType::from_str(type_text.as_str()) {
        Some(t) => t,
        None => {
            return Err(DecodeError::UnknownValue { path: "status.type".to_owned(), value: type_text });
        },
    };
    Ok(VerboseConnector { name: ConnectorName(name.clone()), state, tasks: tasks.len(), connector_type, worker_id })
}

/// Decodes the body of the verbose listing: one row per member of the
/// top-level object, in the object's order; the first entry that fails
/// decides the error, and no partial listing is returned.
pub fn decode_verbose_listing(body: &str) -> (r: Result<Vec<VerboseConnector>, DecodeError>)
    ensures
        match r {
            Ok(rows) => verbose_listing_text(body@)
                == Ok::<Seq<VerboseRow>, DecodeFault>(rows@.map_values(|c: VerboseConnector| c@)),
            Err(e) => verbose_listing_text(body@) == Err::<Seq<VerboseRow>, DecodeFault>(e@),
        },
{
    let doc = read_document(body)?;
    let mut rows: Vec<VerboseConnector> = Vec::new();
    match doc.as_object() {
        Some(m) => {
            let members = json_map_members(m);
            let ghost ms = crate::json::json_members(*m);
            let mut i: usize = 0;
            proof {
                assert(ms.subrange(0, 0) =~= Seq::<(Seq<char>, JsonV)>::empty());
                assert(rows@.map_values(|c: VerboseConnector| c@) =~= Seq::<VerboseRow>::empty());
            }
            while i < members.len()
                invariant
                    members@.len() == ms.len(),
                    forall|j: int| 0 <= j < members@.len() ==> (#[trigger] members@[j]).0@ == ms[j].0
                        && json_view(*members@[j].1) == ms[j].1,
                    i <= members@.len(),
                    verbose_rows(ms.subrange(0, i as int))
                        == Ok::<Seq<VerboseRow>, DecodeFault>(rows@.map_values(|c: VerboseConnector| c@)),
                    verbose_listing_text(body@) == verbose_rows(ms),
                decreases members.len() - i,
            {
                let row = decode_verbose_entry(&members[i].0, members[i].1);
                proof {
                    let pre = ms.subrange(0, i as int);
                    let next = ms.subrange(0, i + 1);
                    assert(next.drop_last() =~= pre);
                    assert(next.last() == ms[i as int]);
                }
                let ghost before = rows@.map_values(|c: VerboseConnector| c@);
                match row {
                    Ok(c) => {
                        rows.push(c);
                        proof {
                            assert(rows@.map_values(|c: VerboseConnector| c@) =~= before.push(c@));
                        }
                    },
                    Err(e) => {
                        proof {
                            lemma_rows_error_persists(ms, i + 1, ms.len() as int);
                            assert(ms.subrange(0, ms.len() as int) =~= ms);
                        }
                        return Err(e);
                    },
                }
                i = i + 1;
            }
            proof {
                assert(ms.subrange(0, i as int) =~= ms);
            }
            Ok(rows)
        },
        None => match doc.as_array() {
            Some(a) => if a.len() == 0 {
                proof {
                    assert(rows@.map_values(|c: VerboseConnector| c@) =~= Seq::<VerboseRow>::empty());
                }
                Ok(rows)
            } else {
                Err(DecodeError::WrongKind { path: String::new(), expected: JsonKind::Object })
            },
            None => Err(DecodeError::WrongKind { path: String::new(), expected: JsonKind::Object }),
        },
    }
}

/// A connector's settings: names and values, in the order of the reply
/// that carried them. Two settings lists are equal where they give every
/// name the same value: the order does not matter.
#[derive(Debug)]
pub struct ConnectorConfig {
    pub entries: Vec<(String, String)>,
}

/// The value of the first setting named `key`.
pub open spec fn setting(entries: Seq<(Seq<char>, Seq<char>)>, key: Seq<char>) -> Option<Seq<char>>
    decreases entries.len(),
{
    if entries.len() == 0 {
        None
    } else if entries[0].0 == key {
        Some(entries[0].1)
    } else {
        setting(entries.drop_first(), key)
    }
}

/// Whether two settings lists give every name the same value.
pub open spec fn same_settings(a: Seq<(Seq<char>, Seq<char>)>, b: Seq<(Seq<char>, Seq<char>)>) -> bool {
    forall|key: Seq<char>| #[trigger] setting(a, key) == setting(b, key)
}

/// A name has a value exactly where some setting carries that name.
pub proof fn lemma_setting_some(entries: Seq<(Seq<char>, Seq<char>)>, key: Seq<char>)
    ensures
        setting(entries, key) is Some <==> exists|i: int| 0 <= i < entries.len() && (#[trigger] entries[i]).0 == key,
    decreases entries.len(),
{
    if entries.len() > 0 {
        let rest = entries.drop_first();
        lemma_setting_some(rest, key);
        if exists|i: int| 0 <= i < entries.len() && (#[trigger] entries[i]).0 == key {
            let i = choose|i: int| 0 <= i < entries.len() && (#[trigger] entries[i]).0 == key;
            if i > 0 {
                assert(rest[i - 1] == entries[i]);
            }
        }
        if exists|i: int| 0 <= i < rest.len() && (#[trigger] rest[i]).0 == key {
            let i = choose|i: int| 0 <= i < rest.len() && (#[trigger] rest[i]).0 == key;
            assert(entries[i + 1] == rest[i]);
        }
    }
}

/// The value of the first setting named `key`.
fn lookup_setting(config: &ConnectorConfig, key: &str) -> (r: Option<String>)
    ensures
        match r {
            Some(v) => setting(config@, key@) == Some(v@),
            None => setting(config@, key@) is None,
        },
{
    let ghost es = config@;
    let mut i: usize = 0;
    proof {
        assert(es.skip(0) =~= es);
    }
    while i < config.entries.len()
        invariant
            es == config@,
            i <= config.entries.len(),
            setting(es, key@) == setting(es.skip(i as int), key@),
        decreases config.entries.len() - i,
    {
        proof {
            assert(es.skip(i as int).drop_first() =~= es.skip(i + 1));
            assert(es.skip(i as int)[0] == es[i as int]);
        }
        if str_eq(config.entries[i].0.as_str(), key) {
            return Some(config.entries[i].1.clone());
        }
        i = i + 1;
    }
    proof {
        assert(es.skip(i as int) =~= Seq::<(Seq<char>, Seq<char>)>::empty());
    }
    None
}

/// The value of the setting named `key`.
pub fn get_setting(config: &ConnectorConfig, key: &str) -> (r: Option<String>)
    requires
        config.wf(),
    ensures
        match r {
            Some(v) => setting(config@, key@) == Some(v@),
            None => setting(config@, key@) is None,
        },
{
    lookup_setting(config, key)
}

/// Whether `b` gives each name that `a` carries the value that `a` gives it.
fn covers(a: &ConnectorConfig, b: &ConnectorConfig) -> (r: bool)
    ensures
        r == forall|i: int| 0 <= i < a@.len() ==> setting(b@, (#[trigger] a@[i]).0) == setting(a@, a@[i].0),
{
    let mut i: usize = 0;
    while i < a.entries.len()
        invariant
            i <= a.entries.len(),
            forall|j: int| 0 <= j < i ==> setting(b@, (#[trigger] a@[j]).0) == setting(a@, a@[j].0),
        decreases a.entries.len() - i,
    {
        let key = a.entries[i].0.as_str();
        let x = lookup_setting(b, key);
        let y = lookup_setting(a, key);
        let same = match (x, y) {
            (Some(p), Some(q)) => p == q,
            (None, None) => true,
            _ => false,
        };
        if !same {
            proof {
                assert(a@[i as int].0 == key@);
                assert(setting(b@, a@[i as int].0) != setting(a@, a@[i as int].0));
            }
            return false;
        }
        i = i + 1;
    }
    true
}

impl PartialEq for ConnectorConfig {
    fn eq(&self, other: &ConnectorConfig) -> (r: bool) {
        let r = covers(self, other) && covers(other, self);
        proof {
            if r {
                assert forall|key: Seq<char>| #[trigger] setting(self@, key) == setting(other@, key) by {
                    lemma_setting_some(self@, key);
                    lemma_setting_some(other@, key);
                }
            } else if same_settings(self@, other@) {
                assert(forall|i: int| 0 <= i < self@.len() ==> setting(other@, (#[trigger] self@[i]).0) == setting(self@, self@[i].0));
                assert(forall|i: int| 0 <= i < other@.len() ==> setting(self@, (#[trigger] other@[i]).0) == setting(other@, other@[i].0));
            }
        }
        r
    }
}

impl vstd::std_specs::cmp::PartialEqSpecImpl for ConnectorConfig {
    open spec fn obeys_eq_spec() -> bool {
        true
    }

    open spec fn eq_spec(&self, other: &ConnectorConfig) -> bool {
        same_settings(self@, other@)
    }
}

/// Whether no two settings carry the same name.
pub open spec fn keys_unique(entries: Seq<(Seq<char>, Seq<char>)>) -> bool {
    forall|i: int, j: int| 0 <= i < j < entries.len() ==> (#[trigger] entries[i]).0 != (#[trigger] entries[j]).0
}

impl ConnectorConfig {
    /// A settings list is well formed where each name occurs once, as in the
    /// JSON object it stands for.
    pub open spec fn wf(&self) -> bool {
        keys_unique(self@)
    }

    /// Whether each name occurs once.
    pub fn has_unique_keys(&self) -> (r: bool)
        ensures
            r == self.wf(),
    {
        let n = self.entries.len();
        let mut i: usize = 0;
        while i < n
            invariant
                n == self.entries.len(),
                i <= n,
                forall|a: int, b: int| 0 <= a < b < n && a < i ==> (#[trigger] self@[a]).0 != (#[trigger] self@[b]).0,
            decreases n - i,
        {
            let mut j: usize = i + 1;
            while j < n
                invariant
                    n == self.entries.len(),
                    i < n,
                    i + 1 <= j <= n,
                    forall|a: int, b: int| 0 <= a < b < n && a < i ==> (#[trigger] self@[a]).0 != (#[trigger] self@[b]).0,
                    forall|b: int| i < b < j ==> self@[i as int].0 != (#[trigger] self@[b]).0,
                decreases n - j,
            {
                if str_eq(self.entries[i].0.as_str(), self.entries[j].0.as_str()) {
                    proof {
                        assert(self@[i as int].0 == self@[j as int].0);
                    }
                    return false;
                }
                j = j + 1;
            }
            i = i + 1;
        }
        true
    }

    /// A copy of the settings.
    pub fn duplicate(&self) -> (r: ConnectorConfig)
        ensures
            r@ == self@,
            r.wf() == self.wf(),
    {
        let mut entries: Vec<(String, String)> = Vec::new();
        let mut i: usize = 0;
        while i < self.entries.len()
            invariant
                i <= self.entries.len(),
                entries@.len() == i,
                forall|j: int| 0 <= j < i ==> (#[trigger] entries@[j]).0@ == self.entries@[j].0@
                    && entries@[j].1@ == self.entries@[j].1@,
            decreases self.entries.len() - i,
        {
            let e = (self.entries[i].0.clone(), self.entries[i].1.clone());
            entries.push(e);
            i = i + 1;
        }
        let r = ConnectorConfig { entries };
        proof {
            assert(r@ =~= self@);
        }
        r
    }
}

impl View for ConnectorConfig {
    type V = Seq<(Seq<char>, Seq<char>)>;

    open spec fn view(&self) -> Seq<(Seq<char>, Seq<char>)> {
        self.entries@.map_values(|e: (String, String)| (e.0@, e.1@))
    }
}

/// The settings that the members of an object hold; each value must be a
/// string, and an error names the setting.
pub open spec fn config_entries(ms: Seq<(Seq<char>, JsonV)>) -> Result<Seq<(Seq<char>, Seq<char>)>, DecodeFault>
    decreases ms.len(),
{
    if ms.len() == 0 {
        Ok(Seq::empty())
    } else {
        match ms[0].1 {
            JsonV::Str(s) => prepend(seq![(ms[0].0, s)], config_entries(ms.drop_first())),
            _ => Err(DecodeFault::WrongKind(ms[0].0, JsonKind::String)),
        }
    }
}

/// The settings that a JSON value holds, where it must be an object of strings.
pub open spec fn config_of(v: JsonV, path: Seq<char>) -> Result<Seq<(Seq<char>, Seq<char>)>, DecodeFault> {
    match v {
        JsonV::Object(ms) => config_entries(ms),
        _ => Err(DecodeFault::WrongKind(path, JsonKind::Object)),
    }
}

/// Decodes a connector's settings from an object of strings.
pub fn decode_config_value(v: &serde_json::Value, path: &str) -> (r: Result<ConnectorConfig, DecodeError>)
    ensures
        r matches Ok(c) ==> c.wf(),
        match r {
            Ok(c) => config_of(json_view(*v), path@) == Ok::<Seq<(Seq<char>, Seq<char>)>, DecodeFault>(c@),
            Err(e) => config_of(json_view(*v), path@) == Err::<Seq<(Seq<char>, Seq<char>)>, DecodeFault>(e@),
        },
{
    let m = match v.as_object() {
        Some(m) => m,
        None => {
            return Err(DecodeError::WrongKind { path: path.to_owned(), expected: JsonKind::Object });
        },
    };
    let members = json_map_members(m);
    let ghost ms = crate::json::json_members(*m);
    let mut entries: Vec<(String, String)> = Vec::new();
    let mut i: usize = 0;
    proof {
        assert(ms.skip(0) =~= ms);
        lemma_prepend_empty(config_entries(ms));
    }
    while i < members.len()
        invariant
            members@.len() == ms.len(),
            forall|j: int| 0 <= j < members@.len() ==> (#[trigger] members@[j]).0@ == ms[j].0
                && json_view(*members@[j].1) == ms[j].1,
            forall|a: int, b: int| 0 <= a < b < members@.len() ==> (#[trigger] members@[a]).0@ != (#[trigger] members@[b]).0@,
            i <= members@.len(),
            entries@.len() == i,
            forall|j: int| 0 <= j < i ==> (#[trigger] entries@[j]).0@ == ms[j].0,
            config_of(json_view(*v), path@) == config_entries(ms),
            config_entries(ms) == prepend(
                entries@.map_values(|e: (String, String)| (e.0@, e.1@)),
                config_entries(ms.skip(i as int)),
            ),
        decreases members.len() - i,
    {
        let ghost before = entries@.map_values(|e: (String, String)| (e.0@, e.1@));
        proof {
            assert(ms.skip(i as int).drop_first() =~= ms.skip(i + 1));
            assert(ms.skip(i as int)[0] == ms[i as int]);
        }
        match members[i].1.as_str() {
            Some(s) => {
                let key: String = members[i].0.clone();
                let value: String = s.to_owned();
                entries.push((key, value));
                proof {
                    lemma_prepend_step(before, (ms[i as int].0, s@), config_entries(ms.skip(i + 1)));
                    assert(entries@.map_values(|e: (String, String)| (e.0@, e.1@)) =~= before.push((ms[i as int].0, s@)));
                }
            },
            None => {
                return Err(DecodeError::WrongKind { path: members[i].0.clone(), expected: JsonKind::String });
            },
        }
        i = i + 1;
    }
    proof {
        assert(ms.skip(i as int) =~= Seq::<(Seq<char>, JsonV)>::empty());
        lemma_prepend_done(entries@.map_values(|e: (String, String)| (e.0@, e.1@)));
    }
    let c = ConnectorConfig { entries };
    proof {
        assert forall|a: int, b: int| 0 <= a < b < c@.len() implies (#[trigger] c@[a]).0 != (#[trigger] c@[b]).0 by {
            assert(c@[a].0 == members@[a].0@);
            assert(c@[b].0 == members@[b].0@);
        }
    }
    Ok(c)
}

/// The settings that a reply body holds.
pub open spec fn config_text(body: Seq<char>) -> Result<Seq<(Seq<char>, Seq<char>)>, DecodeFault> {
    match document(body) {
        Err(e) => Err(e),
        Ok(doc) => config_of(doc, Seq::empty()),
    }
}

/// Decodes a reply body that holds a connector's settings.
pub fn decode_config(body: &str) -> (r: Result<ConnectorConfig, DecodeError>)
    ensures
        r matches Ok(c) ==> c.wf(),
        match r {
            Ok(c) => config_text(body@) == Ok::<Seq<(Seq<char>, Seq<char>)>, DecodeFault>(c@),
            Err(e) => config_text(body@) == Err::<Seq<(Seq<char>, Seq<char>)>, DecodeFault>(e@),
        },
{
    let doc = read_document(body)?;
    proof {
        reveal_strlit("");
        assert(""@ =~= Seq::<char>::empty());
    }
    decode_config_value(&doc, "")
}

/// The state named by the string member `key` of `v`.
pub open spec fn state_field(v: JsonV, key: Seq<char>, path: Seq<char>) -> Result<State, DecodeFault> {
    match str_field(v, key, path) {
        Err(e) => Err(e),
        Ok(t) => match parse_state(t) {
            Some(s) => Ok(s),
            None => Err(DecodeFault::UnknownValue(path, t)),
        },
    }
}

/// The connector type named by the string member `key` of `v`.
pub open spec fn type_field(v: JsonV, key: Seq<char>, path: Seq<char>) -> Result<ConnectorType, DecodeFault> {
    match str_field(v, key, path) {
        Err(e) => Err(e),
        Ok(t) => match parse_type(t) {
            Some(c) => Ok(c),
            None => Err(DecodeFault::UnknownValue(path, t)),
        },
    }
}

/// Decodes the state named by the string member `key` of `v`.
pub fn get_state(v: &serde_json::Value, key: &str, path: &str) -> (r: Result<State, DecodeError>)
    ensures
        match r {
            Ok(s) => state_field(json_view(*v), key@, path@) == Ok::<State, DecodeFault>(s),
            Err(e) => state_field(json_view(*v), key@, path@) == Err::<State, DecodeFault>(e@),
        },
{
    let t = get_str(v, key, path)?;
    match State::from_str(t.as_str()) {
        Some(s) => Ok(s),
        None => Err(DecodeError::UnknownValue { path: path.to_owned(), value: t }),
    }
}

/// Decodes the connector type named by the string member `key` of `v`.
pub fn get_type(v: &serde_json::Value, key: &str, path: &str) -> (r: Result<ConnectorType, DecodeError>)
    ensures
        match r {
            Ok(c) => type_field(json_view(*v), key@, path@) == Ok::<ConnectorType, DecodeFault>(c),
            Err(e) => type_field(json_view(*v), key@, path@) == Err::<ConnectorType, DecodeFault>(e@),
        },
{
    let t = get_str(v, key, path)?;
    match ConnectorType::from_str(t.as_str()) {
        Some(c) => Ok(c),
        None => Err(DecodeError::UnknownValue { path: path.to_owned(), value: t }),
    }
}

/// Where a connector runs and in which state.
#[derive(Debug, PartialEq)]
pub struct ConnectorState {
    pub state: State,
    pub worker_id: String,
}

/// The model of a [`ConnectorState`].
pub struct ConnectorStateV {
    pub state: State,
    pub worker_id: Seq<char>,
}

impl View for ConnectorState {
    type V = ConnectorStateV;

    open spec fn view(&self) -> ConnectorStateV {
        ConnectorStateV { state: self.state, worker_id: self.worker_id@ }
    }
}

/// The status of one task of a connector.
#[derive(Debug, PartialEq)]
pub struct TaskStatus {
    pub id: usize,
    pub state: State,
    pub worker_id: String,
    pub trace: Option<String>,
}

/// The model of a [`TaskStatus`].
pub struct TaskStatusV {
    pub id: nat,
    pub state: State,
    pub worker_id: Seq<char>,
    pub trace: Option<Seq<char>>,
}

/// The model of an optional text.
pub open spec fn opt_view(t: Option<String>) -> Option<Seq<char>> {
    match t {
        Some(s) => Some(s@),
        None => None,
    }
}

impl View for TaskStatus {
    type V = TaskStatusV;

    open spec fn view(&self) -> TaskStatusV {
        TaskStatusV { id: self.id as nat, state: self.state, worker_id: self.worker_id@, trace: opt_view(self.trace) }
    }
}

/// The status of a connector and of its tasks.
#[derive(Debug, PartialEq)]
pub struct ConnectorStatus {
    pub name: ConnectorName,
    pub connector_state: ConnectorState,
    pub tasks: Vec<TaskStatus>,
    pub connector_type: ConnectorType,
}

/// The model of a [`ConnectorStatus`].
pub struct ConnectorStatusV {
    pub name: Seq<char>,
    pub connector_state: ConnectorStateV,
    pub tasks: Seq<TaskStatusV>,
    pub connector_type: ConnectorType,
}

impl View for ConnectorStatus {
    type V = ConnectorStatusV;

    open spec fn view(&self) -> ConnectorStatusV {
        ConnectorStatusV {
            name: self.name@,
            connector_state: self.connector_state@,
            tasks: self.tasks@.map_values(|t: TaskStatus| t@),
            connector_type: self.connector_type,
        }
    }
}

/// One task's status: `id`, `state`, `worker_id` and an optional `trace`.
pub open spec fn task_status_of(v: JsonV) -> Result<TaskStatusV, DecodeFault> {
    match uint_field(v, "id"@, "tasks.id"@) {
        Err(e) => Err(e),
        Ok(id) => match state_field(v, "state"@, "tasks.state"@) {
            Err(e) => Err(e),
            Ok(state) => match str_field(v, "worker_id"@, "tasks.worker_id"@) {
                Err(e) => Err(e),
                Ok(worker_id) => match opt_str_field(v, "trace"@, "tasks.trace"@) {
                    Err(e) => Err(e),
                    Ok(trace) => Ok(TaskStatusV { id, state, worker_id, trace }),
                },
            },
        },
    }
}

/// The statuses of a list of tasks, or the first task's error.
pub open spec fn task_statuses(items: Seq<JsonV>) -> Result<Seq<TaskStatusV>, DecodeFault>
    decreases items.len(),
{
    if items.len() == 0 {
        Ok(Seq::empty())
    } else {
        match task_status_of(items[0]) {
            Err(e) => Err(e),
            Ok(t) => prepend(seq![t], task_statuses(items.drop_first())),
        }
    }
}

/// A connector's status: `name`, `connector.state`, `connector.worker_id`,
/// the `tasks` and the `type`, checked in that order.
pub open spec fn connector_status_of(v: JsonV) -> Result<ConnectorStatusV, DecodeFault> {
    match str_field(v, "name"@, "name"@) {
        Err(e) => Err(e),
        Ok(name) => match field_at(v, "connector"@, "connector"@) {
            Err(e) => Err(e),
            Ok(conn) => match state_field(conn, "state"@, "connector.state"@) {
                Err(e) => Err(e),
                Ok(state) => match str_field(conn, "worker_id"@, "connector.worker_id"@) {
                    Err(e) => Err(e),
                    Ok(worker_id) => match array_field(v, "tasks"@, "tasks"@) {
                        Err(e) => Err(e),
                        Ok(items) => match task_statuses(items) {
                            Err(e) => Err(e),
                            Ok(tasks) => match type_field(v, "type"@, "type"@) {
                                Err(e) => Err(e),
                                Ok(connector_type) => Ok(
                                    ConnectorStatusV {
                                        name,
                                        connector_state: ConnectorStateV { state, worker_id },
                                        tasks,
                                        connector_type,
                                    },
                                ),
                            },
                        },
                    },
                },
            },
        },
    }
}

/// The connector status that a reply body holds.
pub open spec fn connector_status_text(body: Seq<char>) -> Result<ConnectorStatusV, DecodeFault> {
    match document(body) {
        Err(e) => Err(e),
        Ok(doc) => connector_status_of(doc),
    }
}

/// Decodes one task's status.
pub fn decode_task_status(v: &serde_json::Value) -> (r: Result<TaskStatus, DecodeError>)
    ensures
        match r {
            Ok(t) => task_status_of(json_view(*v)) == Ok::<TaskStatusV, DecodeFault>(t@),
            Err(e) => task_status_of(json_view(*v)) == Err::<TaskStatusV, DecodeFault>(e@),
        },
{
    let id = get_uint(v, "id", "tasks.id")?;
    let state = get_state(v, "state", "tasks.state")?;
    let worker_id = get_str(v, "worker_id", "tasks.worker_id")?;
    let trace = get_opt_str(v, "trace", "tasks.trace")?;
    Ok(TaskStatus { id, state, worker_id, trace })
}

/// Decodes a list of task statuses.
pub fn decode_task_statuses(items: &Vec<serde_json::Value>) -> (r: Result<Vec<TaskStatus>, DecodeError>)
    ensures
        match r {
            Ok(ts) => task_statuses(items@.map_values(|x: serde_json::Value| json_view(x)))
                == Ok::<Seq<TaskStatusV>, DecodeFault>(ts@.map_values(|t: TaskStatus| t@)),
            Err(e) => task_statuses(items@.map_values(|x: serde_json::Value| json_view(x)))
                == Err::<Seq<TaskStatusV>, DecodeFault>(e@),
        },
{
    let ghost js = items@.map_values(|x: serde_json::Value| json_view(x));
    let mut out: Vec<TaskStatus> = Vec::new();
    let mut i: usize = 0;
    proof {
        assert(js.skip(0) =~= js);
        lemma_prepend_empty(task_statuses(js));
    }
    while i < items.len()
        invariant
            js == items@.map_values(|x: serde_json::Value| json_view(x)),
            i <= items@.len(),
            task_statuses(js) == prepend(out@.map_values(|t: TaskStatus| t@), task_statuses(js.skip(i as int))),
        decreases items.len() - i,
    {
        let ghost before = out@.map_values(|t: TaskStatus| t@);
        proof {
            assert(js.skip(i as int).drop_first() =~= js.skip(i + 1));
            assert(js.skip(i as int)[0] == js[i as int]);
        }
        let t = decode_task_status(&items[i])?;
        proof {
            lemma_prepend_step(before, t@, task_statuses(js.skip(i + 1)));
        }
        out.push(t);
        proof {
            assert(out@.map_values(|t: TaskStatus| t@) =~= before.push(t@));
        }
        i = i + 1;
    }
    proof {
        assert(js.skip(i as int) =~= Seq::<JsonV>::empty());
        lemma_prepend_done(out@.map_values(|t: TaskStatus| t@));
    }
    Ok(out)
}

/// Decodes a connector's status.
pub fn decode_connector_status_value(v: &serde_json::Value) -> (r: Result<ConnectorStatus, DecodeError>)
    ensures
        match r {
            Ok(c) => connector_status_of(json_view(*v)) == Ok::<ConnectorStatusV, DecodeFault>(c@),
            Err(e) => connector_status_of(json_view(*v)) == Err::<ConnectorStatusV, DecodeFault>(e@),
        },
{
    let name = get_str(v, "name", "name")?;
    let conn = get_field(v, "connector", "connector")?;
    let state = get_state(conn, "state", "connector.state")?;
    let worker_id = get_str(conn, "worker_id", "connector.worker_id")?;
    let items = get_array(v, "tasks", "tasks")?;
    let tasks = decode_task_statuses(items)?;
    let connector_type = get_type(v, "type", "type")?;
    Ok(
        ConnectorStatus {
            name: ConnectorName(name),
            connector_state: ConnectorState { state, worker_id },
            tasks,
            connector_type,
        },
    )
}

/// Decodes a reply body that holds a connector's status.
pub fn decode_connector_status(body: &str) -> (r: Result<ConnectorStatus, DecodeError>)
    ensures
        match r {
            Ok(c) => connector_status_text(body@) == Ok::<ConnectorStatusV, DecodeFault>(c@),
            Err(e) => connector_status_text(body@) == Err::<ConnectorStatusV, DecodeFault>(e@),
        },
{
    let doc = read_document(body)?;
    decode_connector_status_value(&doc)
}

/// One task of a connector, by the connector's name and the task's index.
#[derive(Debug, PartialEq)]
pub struct Task {
    pub connector: ConnectorName,
    pub id: usize,
}

/// The model of a [`Task`].
pub struct TaskV {
    pub connector: Seq<char>,
    pub id: nat,
}

impl View for Task {
    type V = TaskV;

    open spec fn view(&self) -> TaskV {
        TaskV { connector: self.connector@, id: self.id as nat }
    }
}

/// A connector as the API returns it after creating or updating it.
#[derive(Debug, PartialEq)]
pub struct Connector {
    pub name: ConnectorName,
    pub config: ConnectorConfig,
    pub tasks: Vec<Task>,
    pub connector_type: ConnectorType,
}

/// The model of a [`Connector`].
pub struct ConnectorV {
    pub name: Seq<char>,
    pub config: Seq<(Seq<char>, Seq<char>)>,
    pub tasks: Seq<TaskV>,
    pub connector_type: ConnectorType,
}

impl View for Connector {
    type V = ConnectorV;

    open spec fn view(&self) -> ConnectorV {
        ConnectorV {
            name: self.name@,
            config: self.config@,
            tasks: self.tasks@.map_values(|t: Task| t@),
            connector_type: self.connector_type,
        }
    }
}

/// What is sent to create a connector: its name and its settings.
#[derive(Debug, PartialEq)]
pub struct CreateConnector {
    pub name: ConnectorName,
    pub config: ConnectorConfig,
}

/// What `str::to_lowercase` makes of a text.
pub uninterp spec fn lower_of(s: Seq<char>) -> Seq<char>;

/// Relies on str::to_lowercase: the lower-case form of a text, which depends
/// on its characters alone.
#[verifier::external_body]
fn lowercase(s: &str) -> (r: String)
    ensures
        r@ == lower_of(s@),
{
    s.to_lowercase()
}

/// Whether `needle` occurs in `hay`.
pub open spec fn text_contains(hay: Seq<char>, needle: Seq<char>) -> bool {
    exists|i: int| 0 <= i && i + needle.len() <= hay.len() && #[trigger] hay.subrange(i, i + needle.len()) == needle
}

/// Whether `needle` occurs in `hay`.
pub fn contains_text(hay: &str, needle: &str) -> (r: bool)
    ensures
        r == text_contains(hay@, needle@),
{
    let n: usize = hay.unicode_len();
    let m: usize = needle.unicode_len();
    if m > n {
        return false;
    }
    if m == 0 {
        proof {
            assert(hay@.subrange(0int, 0int + needle@.len()) =~= needle@);
        }
        return true;
    }
    let mut i: usize = 0;
    while i <= n - m
        invariant
            n == hay@.len(),
            m == needle@.len(),
            0 < m <= n,
            i <= n - m + 1,
            forall|j: int| 0 <= j < i ==> #[trigger] hay@.subrange(j, j + m) != needle@,
        decreases n - m + 1 - i,
    {
        if str_eq(hay.substring_char(i, i + m), needle) {
            return true;
        }
        i = i + 1;
    }
    proof {
        assert forall|j: int| 0 <= j && j + needle@.len() <= hay@.len() implies #[trigger] hay@.subrange(j, j + needle@.len()) != needle@ by {
            assert(j < i);
        }
    }
    false
}

/// The type guessed from a lower-case connector name: a sink where the name
/// mentions `sink`, else a source.
pub open spec fn type_for_lowered(lowered: Seq<char>) -> ConnectorType {
    if text_contains(lowered, "sink"@) {
        ConnectorType::Sink
    } else {
        ConnectorType::Source
    }
}

/// The type guessed from a lower-case connector name.
pub fn connector_type_for(lowered: &str) -> (r: ConnectorType)
    ensures
        r == type_for_lowered(lowered@),
{
    if contains_text(lowered, "sink") {
        ConnectorType::Sink
    } else {
        ConnectorType::Source
    }
}

impl Connector {
    /// The connector that creating `connector` is expected to give: its name
    /// and settings, one task of index 0, and a type guessed from the name.
    pub fn from(connector: &CreateConnector) -> (r: Connector)
        ensures
            r.name@ == connector.name@,
            r.config@ == connector.config@,
            r.tasks@.map_values(|t: Task| t@) == seq![TaskV { connector: connector.name@, id: 0 }],
            r.connector_type == type_for_lowered(lower_of(connector.name@)),
    {
        let lowered = lowercase(connector.name.0.as_str());
        let connector_type = connector_type_for(lowered.as_str());
        let mut tasks: Vec<Task> = Vec::new();
        tasks.push(Task { connector: ConnectorName(connector.name.0.clone()), id: 0 });
        let r = Connector { name: ConnectorName(connector.name.0.clone()), config: connector.config.duplicate(), tasks, connector_type };
        proof {
            assert(r.tasks@.map_values(|t: Task| t@) =~= seq![TaskV { connector: connector.name@, id: 0 }]);
        }
        r
    }
}

/// One task reference: `connector` and `task`.
pub open spec fn task_of(v: JsonV) -> Result<TaskV, DecodeFault> {
    match str_field(v, "connector"@, "tasks.connector"@) {
        Err(e) => Err(e),
        Ok(connector) => match uint_field(v, "task"@, "tasks.task"@) {
            Err(e) => Err(e),
            Ok(id) => Ok(TaskV { connector, id }),
        },
    }
}

/// The task references of a list, or the first one's error.
pub open spec fn tasks_of(items: Seq<JsonV>) -> Result<Seq<TaskV>, DecodeFault>
    decreases items.len(),
{
    if items.len() == 0 {
        Ok(Seq::empty())
    } else {
        match task_of(items[0]) {
            Err(e) => Err(e),
            Ok(t) => prepend(seq![t], tasks_of(items.drop_first())),
        }
    }
}

/// A connector: `name`, `config`, `tasks` and `type`, checked in that order.
pub open spec fn connector_of(v: JsonV) -> Result<ConnectorV, DecodeFault> {
    match str_field(v, "name"@, "name"@) {
        Err(e) => Err(e),
        Ok(name) => match field_at(v, "config"@, "config"@) {
            Err(e) => Err(e),
            Ok(c) => match config_of(c, "config"@) {
                Err(e) => Err(e),
                Ok(config) => match array_field(v, "tasks"@, "tasks"@) {
                    Err(e) => Err(e),
                    Ok(items) => match tasks_of(items) {
                        Err(e) => Err(e),
                        Ok(tasks) => match type_field(v, "type"@, "type"@) {
                            Err(e) => Err(e),
                            Ok(connector_type) => Ok(ConnectorV { name, config, tasks, connector_type }),
                        },
                    },
                },
            },
        },
    }
}

/// The connector that a reply body holds.
pub open spec fn connector_text(body: Seq<char>) -> Result<ConnectorV, DecodeFault> {
    match document(body) {
        Err(e) => Err(e),
        Ok(doc) => connector_of(doc),
    }
}

/// Decodes one task reference.
pub fn decode_task(v: &serde_json::Value) -> (r: Result<Task, DecodeError>)
    ensures
        match r {
            Ok(t) => task_of(json_view(*v)) == Ok::<TaskV, DecodeFault>(t@),
            Err(e) => task_of(json_view(*v)) == Err::<TaskV, DecodeFault>(e@),
        },
{
    let connector = get_str(v, "connector", "tasks.connector")?;
    let id = get_uint(v, "task", "tasks.task")?;
    Ok(Task { connector: ConnectorName(connector), id })
}

/// Decodes a list of task references.
pub fn decode_tasks(items: &Vec<serde_json::Value>) -> (r: Result<Vec<Task>, DecodeError>)
    ensures
        match r {
            Ok(ts) => tasks_of(items@.map_values(|x: serde_json::Value| json_view(x)))
                == Ok::<Seq<TaskV>, DecodeFault>(ts@.map_values(|t: Task| t@)),
            Err(e) => tasks_of(items@.map_values(|x: serde_json::Value| json_view(x)))
                == Err::<Seq<TaskV>, DecodeFault>(e@),
        },
{
    let ghost js = items@.map_values(|x: serde_json::Value| json_view(x));
    let mut out: Vec<Task> = Vec::new();
    let mut i: usize = 0;
    proof {
        assert(js.skip(0) =~= js);
        lemma_prepend_empty(tasks_of(js));
    }
    while i < items.len()
        invariant
            js == items@.map_values(|x: serde_json::Value| json_view(x)),
            i <= items@.len(),
            tasks_of(js) == prepend(out@.map_values(|t: Task| t@), tasks_of(js.skip(i as int))),
        decreases items.len() - i,
    {
        let ghost before = out@.map_values(|t: Task| t@);
        proof {
            assert(js.skip(i as int).drop_first() =~= js.skip(i + 1));
            assert(js.skip(i as int)[0] == js[i as int]);
        }
        let t = decode_task(&items[i])?;
        proof {
            lemma_prepend_step(before, t@, tasks_of(js.skip(i + 1)));
        }
        out.push(t);
        proof {
            assert(out@.map_values(|t: Task| t@) =~= before.push(t@));
        }
        i = i + 1;
    }
    proof {
        assert(js.skip(i as int) =~= Seq::<JsonV>::empty());
        lemma_prepend_done(out@.map_values(|t: Task| t@));
    }
    Ok(out)
}

/// Decodes a connector.
pub fn decode_connector_value(v: &serde_json::Value) -> (r: Result<Connector, DecodeError>)
    ensures
        r matches Ok(c) ==> c.config.wf(),
        match r {
            Ok(c) => connector_of(json_view(*v)) == Ok::<ConnectorV, DecodeFault>(c@),
            Err(e) => connector_of(json_view(*v)) == Err::<ConnectorV, DecodeFault>(e@),
        },
{
    let name = get_str(v, "name", "name")?;
    let c = get_field(v, "config", "config")?;
    let config = decode_config_value(c, "config")?;
    let items = get_array(v, "tasks", "tasks")?;
    let tasks = decode_tasks(items)?;
    let connector_type = get_type(v, "type", "type")?;
    Ok(Connector { name: ConnectorName(name), config, tasks, connector_type })
}

/// Decodes a reply body that holds a connector.
pub fn decode_connector(body: &str) -> (r: Result<Connector, DecodeError>)
    ensures
        r matches Ok(c) ==> c.config.wf(),
        match r {
            Ok(c) => connector_text(body@) == Ok::<ConnectorV, DecodeFault>(c@),
            Err(e) => connector_text(body@) == Err::<ConnectorV, DecodeFault>(e@),
        },
{
    let doc = read_document(body)?;
    decode_connector_value(&doc)
}

/// The names that a list of strings holds, or an error at the first item
/// that is no string.
pub open spec fn names_of(items: Seq<JsonV>) -> Result<Seq<Seq<char>>, DecodeFault>
    decreases items.len(),
{
    if items.len() == 0 {
        Ok(Seq::empty())
    } else {
        match items[0] {
            JsonV::Str(s) => prepend(seq![s], names_of(items.drop_first())),
            _ => Err(DecodeFault::WrongKind(Seq::empty(), JsonKind::String)),
        }
    }
}

/// The connector names that a reply body holds: a JSON array of strings.
pub open spec fn names_text(body: Seq<char>) -> Result<Seq<Seq<char>>, DecodeFault> {
    match document(body) {
        Err(e) => Err(e),
        Ok(JsonV::Array(items)) => names_of(items),
        Ok(_) => Err(DecodeFault::WrongKind(Seq::empty(), JsonKind::Array)),
    }
}

/// Decodes a reply body that lists connector names.
pub fn decode_names(body: &str) -> (r: Result<Vec<ConnectorName>, DecodeError>)
    ensures
        match r {
            Ok(ns) => names_text(body@) == Ok::<Seq<Seq<char>>, DecodeFault>(ns@.map_values(|n: ConnectorName| n@)),
            Err(e) => names_text(body@) == Err::<Seq<Seq<char>>, DecodeFault>(e@),
        },
{
    let doc = read_document(body)?;
    let items = match doc.as_array() {
        Some(a) => a,
        None => {
            return Err(DecodeError::WrongKind { path: String::new(), expected: JsonKind::Array });
        },
    };
    let ghost js = items@.map_values(|x: serde_json::Value| json_view(x));
    let mut out: Vec<ConnectorName> = Vec::new();
    let mut i: usize = 0;
    proof {
        assert(js.skip(0) =~= js);
        lemma_prepend_empty(names_of(js));
    }
    while i < items.len()
        invariant
            js == items@.map_values(|x: serde_json::Value| json_view(x)),
            names_text(body@) == names_of(js),
            i <= items@.len(),
            names_of(js) == prepend(out@.map_values(|n: ConnectorName| n@), names_of(js.skip(i as int))),
        decreases items.len() - i,
    {
        let ghost before = out@.map_values(|n: ConnectorName| n@);
        proof {
            assert(js.skip(i as int).drop_first() =~= js.skip(i + 1));
            assert(js.skip(i as int)[0] == js[i as int]);
        }
        match items[i].as_str() {
            Some(s) => {
                let n = ConnectorName(s.to_owned());
                proof {
                    lemma_prepend_step(before, n@, names_of(js.skip(i + 1)));
                }
                out.push(n);
                proof {
                    assert(out@.map_values(|n: ConnectorName| n@) =~= before.push(n@));
                }
            },
            None => {
                return Err(DecodeError::WrongKind { path: String::new(), expected: JsonKind::String });
            },
        }
        i = i + 1;
    }
    proof {
        assert(js.skip(i as int) =~= Seq::<JsonV>::empty());
        lemma_prepend_done(out@.map_values(|n: ConnectorName| n@));
    }
    Ok(out)
}

/// A connector's status together with its settings, as one record.
#[derive(Debug, PartialEq)]
pub struct DescribeConnector {
    pub name: ConnectorName,
    pub config: ConnectorConfig,
    pub state: ConnectorState,
    pub tasks: Vec<TaskStatus>,
    pub connector_type: ConnectorType,
}

impl DescribeConnector {
    /// Merges a connector's status and settings under the name asked for.
    pub fn merge(name: &str, status: ConnectorStatus, config: ConnectorConfig) -> (r: DescribeConnector)
        ensures
            r.name@ == name@,
            r.config@ == config@,
            r.state@ == status.connector_state@,
            r.tasks@.map_values(|t: TaskStatus| t@) == status.tasks@.map_values(|t: TaskStatus| t@),
            r.connector_type == status.connector_type,
    {
        DescribeConnector {
            name: ConnectorName(name.to_owned()),
            config,
            state: status.connector_state,
            tasks: status.tasks,
            connector_type: status.connector_type,
        }
    }
}

/// Where the cluster API is reached.
#[derive(Debug, PartialEq)]
pub struct HTTPClientConfig {
    pub connect_uri: String,
}

/// Builds the requests of the connector operations and reads their replies.
#[derive(Debug, PartialEq)]
pub struct HTTPClient {
    pub config: HTTPClientConfig,
}

/// The URL of the connector collection under a base URI.
pub open spec fn collection_url(base: Seq<char>) -> Seq<char> {
    join_path(base, "connectors"@)
}

/// The URL of a sub-resource of the named connector.
pub open spec fn connector_url(base: Seq<char>, name: Seq<char>, suffix: Seq<char>) -> Seq<char> {
    collection_url(base) + "/"@ + name + suffix
}

/// What a restart came to.
#[derive(Debug, PartialEq)]
pub enum RestartOutcome {
    /// The connector restarted (200 or 204).
    Restarted,
    /// The restart goes on in the background (202); the status the server
    /// returned says where it stands.
    Accepted(ConnectorStatus),
    /// Any other answer that is not an error: its body, to be shown as it is.
    Informational(String),
}

/// The model of a [`RestartOutcome`].
pub enum RestartOutcomeV {
    Restarted,
    Accepted(ConnectorStatusV),
    Informational(Seq<char>),
}

impl View for RestartOutcome {
    type V = RestartOutcomeV;

    open spec fn view(&self) -> RestartOutcomeV {
        match self {
            RestartOutcome::Restarted => RestartOutcomeV::Restarted,
            RestartOutcome::Accepted(s) => RestartOutcomeV::Accepted(s@),
            RestartOutcome::Informational(b) => RestartOutcomeV::Informational(b@),
        }
    }
}

/// The outcome of a restart: the status code decides its shape. 200 and
/// 204 are a plain success, 202 carries a connector status, 400 and above
/// are the server's refusal, and any other code passes its body on.
pub open spec fn restart_outcome(r: ReplyV) -> Result<RestartOutcomeV, ApiFault> {
    match r {
        ReplyV::Transport(m) => Err(ApiFault::Transport(m)),
        ReplyV::Response(status, body) => if status == 200 || status == 204 {
            Ok(RestartOutcomeV::Restarted)
        } else if status == 202 {
            match connector_status_text(body) {
                Ok(s) => Ok(RestartOutcomeV::Accepted(s)),
                Err(e) => Err(ApiFault::MalformedResponse(e, body)),
            }
        } else if status >= 400 {
            Err(ApiFault::ServerRejected(status, body))
        } else {
            Ok(RestartOutcomeV::Informational(body))
        },
    }
}

/// The outcome of an operation that returns nothing: any success-class status.
pub open spec fn unit_outcome(r: ReplyV) -> Result<(), ApiFault> {
    match reply_failure(r, None) {
        Some(f) => Err(f),
        None => Ok(()),
    }
}

/// The model of an exec result.
pub open spec fn result_view<T: View>(r: Result<T, ApiError>) -> Result<T::V, ApiFault> {
    match r {
        Ok(x) => Ok(x@),
        Err(e) => Err(e@),
    }
}

/// The model of a describe result.
pub struct DescribeV {
    pub name: Seq<char>,
    pub config: Seq<(Seq<char>, Seq<char>)>,
    pub state: ConnectorStateV,
    pub tasks: Seq<TaskStatusV>,
    pub connector_type: ConnectorType,
}

impl View for DescribeConnector {
    type V = DescribeV;

    open spec fn view(&self) -> DescribeV {
        DescribeV {
            name: self.name@,
            config: self.config@,
            state: self.state@,
            tasks: self.tasks@.map_values(|t: TaskStatus| t@),
            connector_type: self.connector_type,
        }
    }
}

/// Describing a connector: its status first, then its settings; the first
/// of the two that fails decides the error.
pub open spec fn describe_outcome(name: Seq<char>, status: ReplyV, config: ReplyV) -> Result<DescribeV, ApiFault> {
    let nf = Some(ApiFault::ConnectorNotFound(name));
    match outcome(status, connector_status_text(reply_body(status)), nf) {
        Err(f) => Err(f),
        Ok(s) => match outcome(config, config_text(reply_body(config)), nf) {
            Err(f) => Err(f),
            Ok(c) => Ok(
                DescribeV { name, config: c, state: s.connector_state, tasks: s.tasks, connector_type: s.connector_type },
            ),
        },
    }
}

impl HTTPClient {
    pub fn from_config(config: HTTPClientConfig) -> (r: Self)
        ensures
            r.config == config,
    {
        HTTPClient { config }
    }

    /// The URL of the connector collection under `uri`.
    pub fn valid_uri(&self, uri: &str) -> (r: String)
        ensures
            r@ == collection_url(uri@),
    {
        join(uri, "connectors")
    }

    /// The URL of a sub-resource of the named connector.
    fn connector_endpoint(&self, name: &str, suffix: &str) -> (r: String)
        ensures
            r@ == connector_url(self.config.connect_uri@, name@, suffix@),
    {
        let mut u = self.valid_uri(self.config.connect_uri.as_str());
        u.append("/");
        u.append(name);
        u.append(suffix);
        u
    }

    /// `GET` on the collection, with the status of each connector embedded.
    pub fn list_connectors_status_request(&self) -> (r: Request)
        ensures
            r@.method == Method::Get,
            r@.url == collection_url(self.config.connect_uri@),
            r@.query == seq![("expand"@, "status"@)],
    {
        let mut query: Vec<(String, String)> = Vec::new();
        query.push(("expand".to_owned(), "status".to_owned()));
        let r = Request { method: Method::Get, url: self.valid_uri(self.config.connect_uri.as_str()), query };
        proof {
            assert(r@.query =~= seq![("expand"@, "status"@)]);
        }
        r
    }

    /// `POST` on the collection; the body holds the name and the settings.
    pub fn create_connector_request(&self) -> (r: Request)
        ensures
            r@.method == Method::Post,
            r@.url == collection_url(self.config.connect_uri@),
            r@.query.len() == 0,
    {
        Request { method: Method::Post, url: self.valid_uri(self.config.connect_uri.as_str()), query: Vec::new() }
    }

    fn connector_request(&self, method: Method, name: &str, suffix: &str) -> (r: Request)
        ensures
            r@.method == method,
            r@.url == connector_url(self.config.connect_uri@, name@, suffix@),
            r@.query.len() == 0,
    {
        Request { method, url: self.connector_endpoint(name, suffix), query: Vec::new() }
    }

    /// `GET` on the connector's settings.
    pub fn get_connector_config_request(&self, name: &str) -> (r: Request)
        ensures
            r@.method == Method::Get,
            r@.url == connector_url(self.config.connect_uri@, name@, "/config"@),
            r@.query.len() == 0,
    {
        self.connector_request(Method::Get, name, "/config")
    }

    /// `PUT` on the connector's settings; the body holds the new settings.
    pub fn put_connector_request(&self, name: &str) -> (r: Request)
        ensures
            r@.method == Method::Put,
            r@.url == connector_url(self.config.connect_uri@, name@, "/config"@),
            r@.query.len() == 0,
    {
        self.connector_request(Method::Put, name, "/config")
    }

    /// `GET` on the connector's status.
    pub fn get_connector_status_request(&self, name: &str) -> (r: Request)
        ensures
            r@.method == Method::Get,
            r@.url == connector_url(self.config.connect_uri@, name@, "/status"@),
            r@.query.len() == 0,
    {
        self.connector_request(Method::Get, name, "/status")
    }

    /// `POST` on the connector's restart resource, with the two flags as
    /// query parameters.
    pub fn restart_connector_request(&self, name: &str, include_tasks: bool, only_failed: bool) -> (r: Request)
        ensures
            r@.method == Method::Post,
            r@.url == connector_url(self.config.connect_uri@, name@, "/restart"@),
            r@.query == seq![
                ("includeTasks"@, crate::http::bool_text(include_tasks)),
                ("onlyFailed"@, crate::http::bool_text(only_failed)),
            ],
    {
        let mut r = self.connector_request(Method::Post, name, "/restart");
        r.query.push(("includeTasks".to_owned(), bool_param(include_tasks)));
        r.query.push(("onlyFailed".to_owned(), bool_param(only_failed)));
        proof {
            assert(r@.query =~= seq![
                ("includeTasks"@, crate::http::bool_text(include_tasks)),
                ("onlyFailed"@, crate::http::bool_text(only_failed)),
            ]);
        }
        r
    }

    /// `PUT` on the connector's pause resource.
    pub fn pause_connector_request(&self, name: &str) -> (r: Request)
        ensures
            r@.method == Method::Put,
            r@.url == connector_url(self.config.connect_uri@, name@, "/pause"@),
            r@.query.len() == 0,
    {
        self.connector_request(Method::Put, name, "/pause")
    }

    /// `PUT` on the connector's resume resource.
    pub fn resume_connector_request(&self, name: &str) -> (r: Request)
        ensures
            r@.method == Method::Put,
            r@.url == connector_url(self.config.connect_uri@, name@, "/resume"@),
            r@.query.len() == 0,
    {
        self.connector_request(Method::Put, name, "/resume")
    }

    /// `DELETE` on the connector.
    pub fn delete_connector_request(&self, name: &str) -> (r: Request)
        ensures
            r@.method == Method::Delete,
            r@.url == connector_url(self.config.connect_uri@, name@, ""@),
            r@.query.len() == 0,
    {
        self.connector_request(Method::Delete, name, "")
    }

    /// Reads the reply of the verbose listing.
    pub fn list_connectors_status(&self, reply: &HttpReply) -> (r: Result<Vec<VerboseConnector>, ApiError>)
        ensures
            match r {
                Ok(rows) => outcome(reply@, verbose_listing_text(reply_body(reply@)), None)
                    == Ok::<Seq<VerboseRow>, ApiFault>(rows@.map_values(|c: VerboseConnector| c@)),
                Err(e) => outcome(reply@, verbose_listing_text(reply_body(reply@)), None)
                    == Err::<Seq<VerboseRow>, ApiFault>(e@),
            },
    {
        let body = check_reply(reply, None)?;
        match decode_verbose_listing(body.as_str()) {
            Ok(rows) => Ok(rows),
            Err(e) => Err(ApiError::MalformedResponse { error: e, body: body.clone() }),
        }
    }

    /// Reads the reply of a creation: the created connector, or the server's
    /// refusal (a duplicate name, invalid settings) with its body verbatim.
    pub fn create_connector(&self, reply: &HttpReply) -> (r: Result<Connector, ApiError>)
        ensures
            r matches Ok(c) ==> c.config.wf(),
            result_view(r) == outcome(reply@, connector_text(reply_body(reply@)), None),
    {
        let body = check_reply(reply, None)?;
        match decode_connector(body.as_str()) {
            Ok(c) => Ok(c),
            Err(e) => Err(ApiError::MalformedResponse { error: e, body: body.clone() }),
        }
    }

    /// Reads the reply of a settings update: 404 means the connector does not exist.
    pub fn put_connector(&self, name: &str, reply: &HttpReply) -> (r: Result<Connector, ApiError>)
        ensures
            r matches Ok(c) ==> c.config.wf(),
            result_view(r) == outcome(
                reply@,
                connector_text(reply_body(reply@)),
                Some(ApiFault::ConnectorNotFound(name@)),
            ),
    {
        let body = check_reply(reply, Some(ApiError::ConnectorNotFound { name: name.to_owned() }))?;
        match decode_connector(body.as_str()) {
            Ok(c) => Ok(c),
            Err(e) => Err(ApiError::MalformedResponse { error: e, body: body.clone() }),
        }
    }

    /// Reads the reply of a settings query: 404 means the connector does not exist.
    pub fn get_connector_config(&self, name: &str, reply: &HttpReply) -> (r: Result<ConnectorConfig, ApiError>)
        ensures
            r matches Ok(c) ==> c.wf(),
            result_view(r) == outcome(
                reply@,
                config_text(reply_body(reply@)),
                Some(ApiFault::ConnectorNotFound(name@)),
            ),
    {
        let body = check_reply(reply, Some(ApiError::ConnectorNotFound { name: name.to_owned() }))?;
        match decode_config(body.as_str()) {
            Ok(c) => Ok(c),
            Err(e) => Err(ApiError::MalformedResponse { error: e, body: body.clone() }),
        }
    }

    /// Reads the reply of a status query: 404 means the connector does not exist.
    pub fn get_connector_status(&self, name: &str, reply: &HttpReply) -> (r: Result<ConnectorStatus, ApiError>)
        ensures
            result_view(r) == outcome(
                reply@,
                connector_status_text(reply_body(reply@)),
                Some(ApiFault::ConnectorNotFound(name@)),
            ),
    {
        let body = check_reply(reply, Some(ApiError::ConnectorNotFound { name: name.to_owned() }))?;
        match decode_connector_status(body.as_str()) {
            Ok(c) => Ok(c),
            Err(e) => Err(ApiError::MalformedResponse { error: e, body: body.clone() }),
        }
    }

    /// Describes a connector from the replies of its status and settings queries.
    pub fn desribe_connector(&self, name: &str, status: &HttpReply, config: &HttpReply) -> (r: Result<DescribeConnector, ApiError>)
        ensures
            r matches Ok(d) ==> d.config.wf(),
            result_view(r) == describe_outcome(name@, status@, config@),
    {
        let s = self.get_connector_status(name, status)?;
        let c = self.get_connector_config(name, config)?;
        Ok(DescribeConnector::merge(name, s, c))
    }

    /// Reads the reply of a restart.
    pub fn restart_connector(&self, reply: &HttpReply) -> (r: Result<RestartOutcome, ApiError>)
        ensures
            result_view(r) == restart_outcome(reply@),
    {
        match reply {
            HttpReply::Transport { message } => Err(ApiError::Transport { message: message.clone() }),
            HttpReply::Response { status, body } => {
                if *status == 200 || *status == 204 {
                    Ok(RestartOutcome::Restarted)
                } else if *status == 202 {
                    match decode_connector_status(body.as_str()) {
                        Ok(s) => Ok(RestartOutcome::Accepted(s)),
                        Err(e) => Err(ApiError::MalformedResponse { error: e, body: body.clone() }),
                    }
                } else if *status >= 400 {
                    Err(ApiError::ServerRejected { status: *status, body: body.clone() })
                } else {
                    Ok(RestartOutcome::Informational(body.clone()))
                }
            },
        }
    }

    /// Reads the reply of a pause.
    pub fn pause_connector(&self, reply: &HttpReply) -> (r: Result<(), ApiError>)
        ensures
            match r {
                Ok(_) => unit_outcome(reply@) == Ok::<(), ApiFault>(()),
                Err(e) => unit_outcome(reply@) == Err::<(), ApiFault>(e@),
            },
    {
        check_reply(reply, None)?;
        Ok(())
    }

    /// Reads the reply of a resume.
    pub fn resume_connector(&self, reply: &HttpReply) -> (r: Result<(), ApiError>)
        ensures
            match r {
                Ok(_) => unit_outcome(reply@) == Ok::<(), ApiFault>(()),
                Err(e) => unit_outcome(reply@) == Err::<(), ApiFault>(e@),
            },
    {
        check_reply(reply, None)?;
        Ok(())
    }

    /// Reads the reply of a deletion.
    pub fn delete_connector(&self, reply: &HttpReply) -> (r: Result<(), ApiError>)
        ensures
            match r {
                Ok(_) => unit_outcome(reply@) == Ok::<(), ApiFault>(()),
                Err(e) => unit_outcome(reply@) == Err::<(), ApiFault>(e@),
            },
    {
        check_reply(reply, None)?;
        Ok(())
    }
}

/// In a listing entry whose `status.tasks` is an array and whose
/// `status.connector` is present, the field `status.connector.state`
/// decides as follows: where it is absent, decoding fails with an error that
/// names `status.connector.state`; where it is `"RUNNING"`, a decoded row is
/// running and no error names that field.
pub proof fn lemma_listing_state_field(name: Seq<char>, entry: JsonV)
    requires
        field(entry, "status"@) is Some,
        array_field(field(entry, "status"@)->Some_0, "tasks"@, "status.tasks"@) is Ok,
        field(field(entry, "status"@)->Some_0, "connector"@) is Some,
    ensures
        ({
            let conn = field(field(entry, "status"@)->Some_0, "connector"@)->Some_0;
            &&& field(conn, "state"@) is None ==> verbose_row(name, entry)
                == Err::<VerboseRow, DecodeFault>(DecodeFault::MissingField("status.connector.state"@))
            &&& field(conn, "state"@) == Some(JsonV::Str("RUNNING"@)) ==> match verbose_row(name, entry) {
                Ok(row) => row.state == State::Running,
                Err(e) => !(e matches DecodeFault::MissingField(p) && p == "status.connector.state"@)
                    && !(e matches DecodeFault::WrongKind(p, _) && p == "status.connector.state"@)
                    && !(e matches DecodeFault::UnknownValue(p, _) && p == "status.connector.state"@),
            }
        }),
{
    reveal_strlit("status.connector.state");
    reveal_strlit("status.connector.worker_id");
    reveal_strlit("status.type");
    assert("status.connector.state"@.len() == 22);
    assert("status.connector.worker_id"@.len() == 26);
    assert("status.type"@.len() == 11);
}

/// Asking for the settings of a connector that the server does not know
/// (404) fails with `ConnectorNotFound` naming it; a server that cannot be
/// reached fails with a transport error instead.
pub proof fn lemma_config_not_found_is_not_transport(name: Seq<char>, body: Seq<char>, message: Seq<char>)
    ensures
        outcome(
            ReplyV::Response(404, body),
            config_text(body),
            Some(ApiFault::ConnectorNotFound(name)),
        ) == Err::<Seq<(Seq<char>, Seq<char>)>, ApiFault>(ApiFault::ConnectorNotFound(name)),
        outcome(
            ReplyV::Transport(message),
            config_text(Seq::empty()),
            Some(ApiFault::ConnectorNotFound(name)),
        ) == Err::<Seq<(Seq<char>, Seq<char>)>, ApiFault>(ApiFault::Transport(message)),
{
}

} // verus!
