//! The multi-cluster configuration: the known clusters, the current one,
//! and the rules for changing them.
use vstd::prelude::*;
use crate::decode::{
    decode_strings, get_list, get_opt_str, get_str, lemma_prepend_done, lemma_prepend_empty,
    lemma_prepend_step, list_field, opt_str_field, prepend, str_field, strings_of, DecodeError,
    DecodeFault, JsonKind,
};
use crate::json::{
    emit_yaml, json_array, json_null, json_object, json_string, json_view, member,
    parse_yaml, text_lt, yaml_out, yaml_text, JsonV,
};

verus! {

/// A named group of equivalent API hosts.
#[derive(Debug, PartialEq)]
pub struct ClusterContext {
    pub name: String,
    pub hosts: Vec<String>,
}

/// The model of a [`ClusterContext`].
pub struct ClusterV {
    pub name: Seq<char>,
    pub hosts: Seq<Seq<char>>,
}

/// The model of a list of texts.
pub open spec fn texts_view(v: Seq<String>) -> Seq<Seq<char>> {
    v.map_values(|s: String| s@)
}

impl View for ClusterContext {
    type V = ClusterV;

    open spec fn view(&self) -> ClusterV {
        ClusterV { name: self.name@, hosts: texts_view(self.hosts@) }
    }
}

/// The known clusters and the current one. `file_path` says where the
/// configuration was read from and is not part of the document.
#[derive(Debug, PartialEq)]
pub struct Config {
    pub current_cluster: Option<String>,
    pub clusters: Vec<ClusterContext>,
    pub file_path: String,
}

/// The model of a [`Config`]: the document, without the file path.
pub struct ConfigV {
    pub current_cluster: Option<Seq<char>>,
    pub clusters: Seq<ClusterV>,
}

/// The model of a list of clusters.
pub open spec fn clusters_view(v: Seq<ClusterContext>) -> Seq<ClusterV> {
    v.map_values(|c: ClusterContext| c@)
}

impl View for Config {
    type V = ConfigV;

    open spec fn view(&self) -> ConfigV {
        ConfigV {
            current_cluster: match self.current_cluster {
                Some(n) => Some(n@),
                None => None,
            },
            clusters: clusters_view(self.clusters@),
        }
    }
}

/// Why a configuration could not be read, resolved or changed.
#[derive(Debug, PartialEq)]
pub enum ConfigError {
    /// The text is no YAML document.
    NotYaml,
    /// The document has not the expected shape.
    ParseFailed { error: DecodeError },
    /// No current cluster is set.
    NoCurrentContext,
    /// No cluster has this name.
    ClusterNotFound { name: String },
    /// A cluster with this name exists already.
    ClusterAlreadyExists { name: String },
    /// None of the cluster's hosts answered.
    NoAvailableHost { cluster: String },
}

/// The model of a [`ConfigError`].
pub enum ConfigFault {
    NotYaml,
    ParseFailed(DecodeFault),
    NoCurrentContext,
    ClusterNotFound(Seq<char>),
    ClusterAlreadyExists(Seq<char>),
    NoAvailableHost(Seq<char>),
}

impl View for ConfigError {
    type V = ConfigFault;

    open spec fn view(&self) -> ConfigFault {
        match self {
            ConfigError::NotYaml => ConfigFault::NotYaml,
            ConfigError::ParseFailed { error } => ConfigFault::ParseFailed(error@),
            ConfigError::NoCurrentContext => ConfigFault::NoCurrentContext,
            ConfigError::ClusterNotFound { name } => ConfigFault::ClusterNotFound(name@),
            ConfigError::ClusterAlreadyExists { name } => ConfigFault::ClusterAlreadyExists(name@),
            ConfigError::NoAvailableHost { cluster } => ConfigFault::NoAvailableHost(cluster@),
        }
    }
}

/// The index of the first cluster named `name`, or -1 where there is none.
pub open spec fn first_index(cs: Seq<ClusterV>, name: Seq<char>) -> int
    decreases cs.len(),
{
    if cs.len() == 0 {
        -1
    } else if cs[0].name == name {
        0
    } else {
        let k = first_index(cs.drop_first(), name);
        if k < 0 {
            -1
        } else {
            k + 1
        }
    }
}

/// Whether some cluster is named `name`.
pub open spec fn has_cluster(cs: Seq<ClusterV>, name: Seq<char>) -> bool {
    exists|i: int| 0 <= i < cs.len() && (#[trigger] cs[i]).name == name
}

/// `first_index` is the first cluster of that name, or -1 where none has it.
pub proof fn lemma_first_index(cs: Seq<ClusterV>, name: Seq<char>)
    ensures
        -1 <= first_index(cs, name) < cs.len(),
        first_index(cs, name) == -1 <==> !has_cluster(cs, name),
        first_index(cs, name) >= 0 ==> cs[first_index(cs, name)].name == name,
        forall|j: int| 0 <= j < first_index(cs, name) ==> (#[trigger] cs[j]).name != name,
    decreases cs.len(),
{
    if cs.len() > 0 {
        let rest = cs.drop_first();
        lemma_first_index(rest, name);
        if cs[0].name != name {
            if has_cluster(cs, name) {
                let i = choose|i: int| 0 <= i < cs.len() && (#[trigger] cs[i]).name == name;
                assert(rest[i - 1] == cs[i]);
            }
            if has_cluster(rest, name) {
                let i = choose|i: int| 0 <= i < rest.len() && (#[trigger] rest[i]).name == name;
                assert(cs[i + 1] == rest[i]);
            }
            assert forall|j: int| 0 <= j < first_index(cs, name) implies (#[trigger] cs[j]).name != name by {
                if j > 0 {
                    assert(cs[j] == rest[j - 1]);
                }
            }
        }
    }
}

/// A cluster that matches `name` with no earlier match is the first.
pub proof fn lemma_first_index_at(cs: Seq<ClusterV>, name: Seq<char>, i: int)
    requires
        0 <= i < cs.len(),
        cs[i].name == name,
        forall|j: int| 0 <= j < i ==> (#[trigger] cs[j]).name != name,
    ensures
        first_index(cs, name) == i,
{
    lemma_first_index(cs, name);
    assert(has_cluster(cs, name));
}

/// The current cluster: the first one named by `current_cluster`.
pub open spec fn current_context_of(c: ConfigV) -> Result<ClusterV, ConfigFault> {
    match c.current_cluster {
        None => Err(ConfigFault::NoCurrentContext),
        Some(n) => if has_cluster(c.clusters, n) {
            Ok(c.clusters[first_index(c.clusters, n)])
        } else {
            Err(ConfigFault::ClusterNotFound(n))
        },
    }
}

/// Selecting a cluster: it must exist.
pub open spec fn use_cluster_of(c: ConfigV, name: Seq<char>) -> Result<ConfigV, ConfigFault> {
    if has_cluster(c.clusters, name) {
        Ok(ConfigV { current_cluster: Some(name), clusters: c.clusters })
    } else {
        Err(ConfigFault::ClusterNotFound(name))
    }
}

/// Adding a cluster: its name must be new; it is appended and becomes current.
pub open spec fn add_cluster_of(c: ConfigV, name: Seq<char>, hosts: Seq<Seq<char>>) -> Result<ConfigV, ConfigFault> {
    if has_cluster(c.clusters, name) {
        Err(ConfigFault::ClusterAlreadyExists(name))
    } else {
        Ok(ConfigV { current_cluster: Some(name), clusters: c.clusters.push(ClusterV { name, hosts }) })
    }
}

/// Removing a cluster: the first of that name goes; the current cluster is
/// left as it is, even where it named the one removed.
pub open spec fn remove_cluster_of(c: ConfigV, name: Seq<char>) -> Result<ConfigV, ConfigFault> {
    if has_cluster(c.clusters, name) {
        Ok(ConfigV { current_cluster: c.current_cluster, clusters: c.clusters.remove(first_index(c.clusters, name)) })
    } else {
        Err(ConfigFault::ClusterNotFound(name))
    }
}

impl Config {
    /// An empty configuration read from `file_path`: no clusters, none current.
    pub fn new(file_path: String) -> (r: Config)
        ensures
            r@.current_cluster is None,
            r@.clusters.len() == 0,
            r.file_path == file_path,
    {
        Config { current_cluster: None, clusters: Vec::new(), file_path }
    }

    /// The index of the first cluster named `name`, if any.
    fn find(&self, name: &str) -> (r: Option<usize>)
        ensures
            match r {
                Some(i) => i as int == first_index(self@.clusters, name@) && i < self.clusters.len(),
                None => !has_cluster(self@.clusters, name@),
            },
    {
        let mut i: usize = 0;
        while i < self.clusters.len()
            invariant
                i <= self.clusters.len(),
                forall|j: int| 0 <= j < i ==> (#[trigger] self@.clusters[j]).name != name@,
            decreases self.clusters.len() - i,
        {
            if self.clusters[i].name == name.to_owned() {
                proof {
                    lemma_first_index_at(self@.clusters, name@, i as int);
                }
                return Some(i);
            }
            i = i + 1;
        }
        None
    }

    /// The current cluster.
    pub fn current_context(&self) -> (r: Result<&ClusterContext, ConfigError>)
        ensures
            match r {
                Ok(c) => current_context_of(self@) == Ok::<ClusterV, ConfigFault>(c@),
                Err(e) => current_context_of(self@) == Err::<ClusterV, ConfigFault>(e@),
            },
    {
        match &self.current_cluster {
            None => Err(ConfigError::NoCurrentContext),
            Some(n) => match self.find(n.as_str()) {
                Some(i) => {
                    proof {
                        lemma_first_index(self@.clusters, n@);
                    }
                    Ok(&self.clusters[i])
                },
                None => Err(ConfigError::ClusterNotFound { name: n.clone() }),
            },
        }
    }

    /// Makes the named cluster the current one; an unknown name changes nothing.
    pub fn use_cluster(&mut self, name: &str) -> (r: Result<(), ConfigError>)
        ensures
            match r {
                Ok(_) => use_cluster_of(old(self)@, name@) == Ok::<ConfigV, ConfigFault>(final(self)@),
                Err(e) => use_cluster_of(old(self)@, name@) == Err::<ConfigV, ConfigFault>(e@)
                    && *final(self) == *old(self),
            },
            final(self).file_path == old(self).file_path,
    {
        match self.find(name) {
            Some(_) => {
                proof {
                    lemma_first_index(self@.clusters, name@);
                }
                self.current_cluster = Some(name.to_owned());
                proof {
                    assert(self@.clusters == old(self)@.clusters);
                }
                Ok(())
            },
            None => Err(ConfigError::ClusterNotFound { name: name.to_owned() }),
        }
    }

    /// Appends a cluster under a new name and makes it current; a name that
    /// exists already changes nothing.
    pub fn add_cluster(&mut self, name: &str, hosts: Vec<String>) -> (r: Result<(), ConfigError>)
        ensures
            match r {
                Ok(_) => add_cluster_of(old(self)@, name@, texts_view(hosts@)) == Ok::<ConfigV, ConfigFault>(final(self)@),
                Err(e) => add_cluster_of(old(self)@, name@, texts_view(hosts@)) == Err::<ConfigV, ConfigFault>(e@)
                    && *final(self) == *old(self),
            },
            final(self).file_path == old(self).file_path,
    {
        match self.find(name) {
            Some(_) => {
                proof {
                    lemma_first_index(self@.clusters, name@);
                }
                Err(ConfigError::ClusterAlreadyExists { name: name.to_owned() })
            },
            None => {
                let ghost before = clusters_view(self.clusters@);
                let c = ClusterContext { name: name.to_owned(), hosts };
                self.clusters.push(c);
                self.current_cluster = Some(name.to_owned());
                proof {
                    assert(clusters_view(self.clusters@) =~= before.push(ClusterV { name: name@, hosts: texts_view(hosts@) }));
                    assert(self@.clusters == old(self)@.clusters.push(ClusterV { name: name@, hosts: texts_view(hosts@) }));
                }
                Ok(())
            },
        }
    }

    /// Removes the first cluster of that name; an unknown name changes nothing.
    pub fn remove_cluster(&mut self, name: &str) -> (r: Result<(), ConfigError>)
        ensures
            match r {
                Ok(_) => remove_cluster_of(old(self)@, name@) == Ok::<ConfigV, ConfigFault>(final(self)@),
                Err(e) => remove_cluster_of(old(self)@, name@) == Err::<ConfigV, ConfigFault>(e@)
                    && *final(self) == *old(self),
            },
            final(self).file_path == old(self).file_path,
    {
        match self.find(name) {
            Some(i) => {
                proof {
                    lemma_first_index(self@.clusters, name@);
                }
                let ghost before = clusters_view(self.clusters@);
                self.clusters.remove(i);
                proof {
                    assert(clusters_view(self.clusters@) =~= before.remove(i as int));
                    assert(self@.clusters == old(self)@.clusters.remove(i as int));
                }
                Ok(())
            },
            None => Err(ConfigError::ClusterNotFound { name: name.to_owned() }),
        }
    }
}

/// Adding a cluster under a name that no cluster has makes it the current
/// context, with exactly that name and those hosts.
pub proof fn lemma_add_cluster_then_current_context(c: ConfigV, name: Seq<char>, hosts: Seq<Seq<char>>)
    requires
        !has_cluster(c.clusters, name),
    ensures
        add_cluster_of(c, name, hosts) is Ok,
        current_context_of(add_cluster_of(c, name, hosts)->Ok_0) == Ok::<ClusterV, ConfigFault>(ClusterV { name, hosts }),
{
    let d = add_cluster_of(c, name, hosts)->Ok_0;
    let n = c.clusters.len() as int;
    assert(d.clusters[n] == ClusterV { name, hosts });
    assert forall|j: int| 0 <= j < n implies (#[trigger] d.clusters[j]).name != name by {
        assert(d.clusters[j] == c.clusters[j]);
    }
    lemma_first_index_at(d.clusters, name, n);
    assert(has_cluster(d.clusters, name));
}

/// Adding a cluster under a name that a cluster has already fails with
/// `ClusterAlreadyExists` (and the exec operation leaves the configuration
/// as it was).
pub proof fn lemma_add_existing_cluster_fails(c: ConfigV, name: Seq<char>, hosts: Seq<Seq<char>>)
    requires
        has_cluster(c.clusters, name),
    ensures
        add_cluster_of(c, name, hosts) == Err::<ConfigV, ConfigFault>(ConfigFault::ClusterAlreadyExists(name)),
{
}

/// Selecting a cluster that no cluster names fails with `ClusterNotFound`
/// (and the exec operation leaves the current cluster as it was).
pub proof fn lemma_use_unknown_cluster_fails(c: ConfigV, name: Seq<char>)
    requires
        !has_cluster(c.clusters, name),
    ensures
        use_cluster_of(c, name) == Err::<ConfigV, ConfigFault>(ConfigFault::ClusterNotFound(name)),
{
}

/// Which host to talk to next.
#[derive(Debug, PartialEq)]
pub enum HostChoice {
    /// This host answered: use it.
    Use(String),
    /// No host has answered yet; probe this one next.
    Probe(String),
}

/// The model of a [`HostChoice`].
pub enum HostChoiceV {
    Use(Seq<char>),
    Probe(Seq<char>),
}

impl View for HostChoice {
    type V = HostChoiceV;

    open spec fn view(&self) -> HostChoiceV {
        match self {
            HostChoice::Use(h) => HostChoiceV::Use(h@),
            HostChoice::Probe(h) => HostChoiceV::Probe(h@),
        }
    }
}

/// The first index at which a probe answered, or -1.
pub open spec fn first_answer(answers: Seq<bool>) -> int
    decreases answers.len(),
{
    if answers.len() == 0 {
        -1
    } else {
        let k = first_answer(answers.drop_last());
        if k >= 0 {
            k
        } else if answers.last() {
            answers.len() - 1
        } else {
            -1
        }
    }
}

/// The answers that concern the hosts: any beyond the last host are ignored.
pub open spec fn relevant_answers(c: ClusterV, answers: Seq<bool>) -> Seq<bool> {
    if answers.len() > c.hosts.len() {
        answers.subrange(0, c.hosts.len() as int)
    } else {
        answers
    }
}

/// Linear failover over a cluster's hosts, given the answers of the probes
/// made so far in list order: the first host that answered is used;
/// otherwise the next host is probed; once every host failed, there is no
/// host to use.
pub open spec fn host_choice(c: ClusterV, answers: Seq<bool>) -> Result<HostChoiceV, ConfigFault> {
    let a = relevant_answers(c, answers);
    if first_answer(a) >= 0 {
        Ok(HostChoiceV::Use(c.hosts[first_answer(a)]))
    } else if a.len() < c.hosts.len() {
        Ok(HostChoiceV::Probe(c.hosts[a.len() as int]))
    } else {
        Err(ConfigFault::NoAvailableHost(c.name))
    }
}

impl ClusterContext {
    /// The next step of host failover; `answers` holds, in list order, whether
    /// each host probed so far answered.
    pub fn available_host(&self, answers: &Vec<bool>) -> (r: Result<HostChoice, ConfigError>)
        ensures
            match r {
                Ok(h) => host_choice(self@, answers@) == Ok::<HostChoiceV, ConfigFault>(h@),
                Err(e) => host_choice(self@, answers@) == Err::<HostChoiceV, ConfigFault>(e@),
            },
    {
        let n: usize = if answers.len() < self.hosts.len() { answers.len() } else { self.hosts.len() };
        let ghost a = relevant_answers(self@, answers@);
        proof {
            assert(a =~= answers@.subrange(0, n as int));
        }
        let mut i: usize = 0;
        while i < n
            invariant
                n <= answers.len(),
                n <= self.hosts.len(),
                a == answers@.subrange(0, n as int),
                a == relevant_answers(self@, answers@),
                i <= n,
                first_answer(a.subrange(0, i as int)) == -1,
            decreases n - i,
        {
            proof {
                assert(a.subrange(0, i + 1).drop_last() =~= a.subrange(0, i as int));
                assert(a.subrange(0, i + 1).last() == answers@[i as int]);
            }
            if answers[i] {
                proof {
                    assert(first_answer(a.subrange(0, i + 1)) == i as int);
                    lemma_first_answer_prefix(a, i as int + 1);
                }
                return Ok(HostChoice::Use(self.hosts[i].clone()));
            }
            i = i + 1;
        }
        proof {
            assert(a.subrange(0, i as int) =~= a);
        }
        if n < self.hosts.len() {
            Ok(HostChoice::Probe(self.hosts[n].clone()))
        } else {
            Err(ConfigError::NoAvailableHost { cluster: self.name.clone() })
        }
    }
}

/// A first answer found in a prefix stays the first answer of the whole.
proof fn lemma_first_answer_prefix(answers: Seq<bool>, k: int)
    requires
        0 <= k <= answers.len(),
        first_answer(answers.subrange(0, k)) >= 0,
    ensures
        first_answer(answers) == first_answer(answers.subrange(0, k)),
    decreases answers.len() - k,
{
    if k < answers.len() {
        assert(answers.subrange(0, k + 1).drop_last() =~= answers.subrange(0, k));
        lemma_first_answer_prefix(answers, k + 1);
    } else {
        assert(answers.subrange(0, k) =~= answers);
    }
}

/// A cluster entry of the document: `name`, then `hosts` (a list of strings;
/// null is no hosts).
pub open spec fn cluster_of(v: JsonV) -> Result<ClusterV, DecodeFault> {
    match str_field(v, "name"@, "clusters.name"@) {
        Err(e) => Err(e),
        Ok(name) => match list_field(v, "hosts"@, "clusters.hosts"@) {
            Err(e) => Err(e),
            Ok(items) => match strings_of(items, "clusters.hosts"@) {
                Err(e) => Err(e),
                Ok(hosts) => Ok(ClusterV { name, hosts }),
            },
        },
    }
}

/// The cluster entries of the document, or the first one's error.
pub open spec fn clusters_of(items: Seq<JsonV>) -> Result<Seq<ClusterV>, DecodeFault>
    decreases items.len(),
{
    if items.len() == 0 {
        Ok(Seq::empty())
    } else {
        match cluster_of(items[0]) {
            Err(e) => Err(e),
            Ok(c) => prepend(seq![c], clusters_of(items.drop_first())),
        }
    }
}

/// The configuration that a document holds: a mapping with an optional
/// `current-cluster` and a list `clusters` (null is no clusters).
pub open spec fn config_doc(doc: JsonV) -> Result<ConfigV, DecodeFault> {
    match doc {
        JsonV::Object(_) => match opt_str_field(doc, "current-cluster"@, "current-cluster"@) {
            Err(e) => Err(e),
            Ok(current_cluster) => match list_field(doc, "clusters"@, "clusters"@) {
                Err(e) => Err(e),
                Ok(items) => match clusters_of(items) {
                    Err(e) => Err(e),
                    Ok(clusters) => Ok(ConfigV { current_cluster, clusters }),
                },
            },
        },
        _ => Err(DecodeFault::WrongKind(Seq::empty(), JsonKind::Object)),
    }
}

/// The configuration that a YAML text holds.
pub open spec fn config_yaml(text: Seq<char>) -> Result<ConfigV, ConfigFault> {
    match yaml_text(text) {
        None => Err(ConfigFault::NotYaml),
        Some(doc) => match config_doc(doc) {
            Err(e) => Err(ConfigFault::ParseFailed(e)),
            Ok(c) => Ok(c),
        },
    }
}

/// The documents of a list of hosts.
pub open spec fn hosts_doc(hosts: Seq<Seq<char>>) -> Seq<JsonV>
    decreases hosts.len(),
{
    if hosts.len() == 0 {
        Seq::empty()
    } else {
        seq![JsonV::Str(hosts[0])] + hosts_doc(hosts.drop_first())
    }
}

/// The document of a cluster entry.
pub open spec fn cluster_doc(c: ClusterV) -> JsonV {
    JsonV::Object(seq![("hosts"@, JsonV::Array(hosts_doc(c.hosts))), ("name"@, JsonV::Str(c.name))])
}

/// The documents of a list of clusters.
pub open spec fn clusters_doc(cs: Seq<ClusterV>) -> Seq<JsonV>
    decreases cs.len(),
{
    if cs.len() == 0 {
        Seq::empty()
    } else {
        seq![cluster_doc(cs[0])] + clusters_doc(cs.drop_first())
    }
}

/// The document that a configuration is written as.
pub open spec fn config_document(c: ConfigV) -> JsonV {
    JsonV::Object(config_members(c))
}

/// The members of the document that a configuration is written as.
pub open spec fn config_members(c: ConfigV) -> Seq<(Seq<char>, JsonV)> {
    seq![
        ("clusters"@, JsonV::Array(clusters_doc(c.clusters))),
        (
            "current-cluster"@,
            match c.current_cluster {
                Some(n) => JsonV::Str(n),
                None => JsonV::Null,
            },
        ),
    ]
}

/// Decodes one cluster entry of the configuration document.
pub fn decode_cluster(v: &serde_json::Value) -> (r: Result<ClusterContext, DecodeError>)
    ensures
        match r {
            Ok(c) => cluster_of(json_view(*v)) == Ok::<ClusterV, DecodeFault>(c@),
            Err(e) => cluster_of(json_view(*v)) == Err::<ClusterV, DecodeFault>(e@),
        },
{
    let name = get_str(v, "name", "clusters.name")?;
    let hosts = match get_list(v, "hosts", "clusters.hosts")? {
        Some(items) => decode_strings(items, "clusters.hosts")?,
        None => Vec::new(),
    };
    proof {
        if list_field(json_view(*v), "hosts"@, "clusters.hosts"@) == Ok::<Seq<JsonV>, DecodeFault>(Seq::empty()) {
            assert(texts_view(hosts@) =~= Seq::<Seq<char>>::empty());
        }
    }
    Ok(ClusterContext { name, hosts })
}

/// Decodes the cluster entries of the configuration document.
pub fn decode_clusters(items: &Vec<serde_json::Value>) -> (r: Result<Vec<ClusterContext>, DecodeError>)
    ensures
        match r {
            Ok(cs) => clusters_of(items@.map_values(|x: serde_json::Value| json_view(x)))
                == Ok::<Seq<ClusterV>, DecodeFault>(clusters_view(cs@)),
            Err(e) => clusters_of(items@.map_values(|x: serde_json::Value| json_view(x)))
                == Err::<Seq<ClusterV>, DecodeFault>(e@),
        },
{
    let ghost js = items@.map_values(|x: serde_json::Value| json_view(x));
    let mut out: Vec<ClusterContext> = Vec::new();
    let mut i: usize = 0;
    proof {
        assert(js.skip(0) =~= js);
        lemma_prepend_empty(clusters_of(js));
    }
    while i < items.len()
        invariant
            js == items@.map_values(|x: serde_json::Value| json_view(x)),
            i <= items@.len(),
            clusters_of(js) == prepend(clusters_view(out@), clusters_of(js.skip(i as int))),
        decreases items.len() - i,
    {
        let ghost before = clusters_view(out@);
        proof {
            assert(js.skip(i as int).drop_first() =~= js.skip(i + 1));
            assert(js.skip(i as int)[0] == js[i as int]);
        }
        let c = decode_cluster(&items[i])?;
        proof {
            lemma_prepend_step(before, c@, clusters_of(js.skip(i + 1)));
        }
        out.push(c);
        proof {
            assert(clusters_view(out@) =~= before.push(c@));
        }
        i = i + 1;
    }
    proof {
        assert(js.skip(i as int) =~= Seq::<JsonV>::empty());
        lemma_prepend_done(clusters_view(out@));
    }
    Ok(out)
}

impl Config {
    /// The configuration that the YAML text `text`, read from `path`, holds.
    /// An unreadable text and a document of the wrong shape are told apart.
    pub fn with_file(self, path: String, text: &str) -> (r: Result<Config, ConfigError>)
        ensures
            match r {
                Ok(c) => config_yaml(text@) == Ok::<ConfigV, ConfigFault>(c@) && c.file_path == path,
                Err(e) => config_yaml(text@) == Err::<ConfigV, ConfigFault>(e@),
            },
    {
        let doc = match parse_yaml(text) {
            Some(d) => d,
            None => {
                return Err(ConfigError::NotYaml);
            },
        };
        if doc.as_object().is_none() {
            proof {
                reveal_strlit("");
            }
            return Err(ConfigError::ParseFailed { error: DecodeError::WrongKind { path: String::new(), expected: JsonKind::Object } });
        }
        let current_cluster = match get_opt_str(&doc, "current-cluster", "current-cluster") {
            Ok(c) => c,
            Err(e) => {
                return Err(ConfigError::ParseFailed { error: e });
            },
        };
        let items = match get_list(&doc, "clusters", "clusters") {
            Ok(i) => i,
            Err(e) => {
                return Err(ConfigError::ParseFailed { error: e });
            },
        };
        let clusters = match items {
            Some(items) => match decode_clusters(items) {
                Ok(cs) => cs,
                Err(e) => {
                    return Err(ConfigError::ParseFailed { error: e });
                },
            },
            None => Vec::new(),
        };
        proof {
            if items is None {
                assert(clusters_view(clusters@) =~= Seq::<ClusterV>::empty());
            }
        }
        Ok(Config { current_cluster, clusters, file_path: path })
    }

    /// The YAML text of the configuration, without its file path, as
    /// serde_yaml writes the configuration's document; `None` where serde_yaml
    /// reports an error.
    pub fn to_yaml(&self) -> (r: Option<String>)
        ensures
            match r {
                Some(t) => yaml_out(config_document(self@)) == Some(t@),
                None => yaml_out(config_document(self@)) is None,
            },
    {
        let mut docs: Vec<serde_json::Value> = Vec::new();
        let mut i: usize = 0;
        let ghost cs = self@.clusters;
        proof {
            assert(cs.skip(0) =~= cs);
            assert(docs@.map_values(|x: serde_json::Value| json_view(x)) + clusters_doc(cs) =~= clusters_doc(cs));
        }
        while i < self.clusters.len()
            invariant
                cs == self@.clusters,
                i <= self.clusters.len(),
                clusters_doc(cs) == docs@.map_values(|x: serde_json::Value| json_view(x)) + clusters_doc(cs.skip(i as int)),
            decreases self.clusters.len() - i,
        {
            let ghost before = docs@.map_values(|x: serde_json::Value| json_view(x));
            proof {
                assert(cs.skip(i as int).drop_first() =~= cs.skip(i + 1));
                assert(cs.skip(i as int)[0] == cs[i as int]);
            }
            let d = cluster_value(&self.clusters[i]);
            docs.push(d);
            proof {
                assert(docs@.map_values(|x: serde_json::Value| json_view(x)) =~= before.push(json_view(d)));
                assert(before.push(json_view(d)) + clusters_doc(cs.skip(i + 1))
                    =~= before + (seq![json_view(d)] + clusters_doc(cs.skip(i + 1))));
            }
            i = i + 1;
        }
        proof {
            assert(cs.skip(i as int) =~= Seq::<ClusterV>::empty());
            assert(docs@.map_values(|x: serde_json::Value| json_view(x)) + Seq::<JsonV>::empty()
                =~= docs@.map_values(|x: serde_json::Value| json_view(x)));
        }
        let current = match &self.current_cluster {
            Some(n) => json_string(n.clone()),
            None => json_null(),
        };
        proof {
            assert(json_view(current) == match self@.current_cluster {
                Some(n) => JsonV::Str(n),
                None => JsonV::Null,
            });
        }
        let arr = json_array(docs);
        let mut members: Vec<(String, serde_json::Value)> = Vec::new();
        members.push(("clusters".to_owned(), arr));
        members.push(("current-cluster".to_owned(), current));
        proof {
            assert(members@.map_values(|m: (String, serde_json::Value)| (m.0@, json_view(m.1)))
                =~= seq![("clusters"@, JsonV::Array(clusters_doc(cs))), ("current-cluster"@, json_view(current))]);
        }
        proof {
            reveal_strlit("clusters");
            reveal_strlit("current-cluster");
            reveal_with_fuel(text_lt, 3);
            assert(text_lt("clusters"@, "current-cluster"@));
        }
        let doc = json_object(members);
        proof {
            assert(members@.map_values(|m: (String, serde_json::Value)| (m.0@, json_view(m.1)))
                =~= config_members(self@));
            assert(json_view(doc) == config_document(self@));
        }
        emit_yaml(&doc)
    }
}

/// The document of one cluster entry.
fn cluster_value(c: &ClusterContext) -> (r: serde_json::Value)
    ensures
        json_view(r) == cluster_doc(c@),
{
    let mut docs: Vec<serde_json::Value> = Vec::new();
    let mut i: usize = 0;
    let ghost hs = c@.hosts;
    proof {
        assert(hs.skip(0) =~= hs);
        assert(docs@.map_values(|x: serde_json::Value| json_view(x)) + hosts_doc(hs) =~= hosts_doc(hs));
    }
    while i < c.hosts.len()
        invariant
            hs == c@.hosts,
            i <= c.hosts.len(),
            hosts_doc(hs) == docs@.map_values(|x: serde_json::Value| json_view(x)) + hosts_doc(hs.skip(i as int)),
        decreases c.hosts.len() - i,
    {
        let ghost before = docs@.map_values(|x: serde_json::Value| json_view(x));
        proof {
            assert(hs.skip(i as int).drop_first() =~= hs.skip(i + 1));
            assert(hs.skip(i as int)[0] == hs[i as int]);
        }
        let d = json_string(c.hosts[i].clone());
        docs.push(d);
        proof {
            assert(docs@.map_values(|x: serde_json::Value| json_view(x)) =~= before.push(json_view(d)));
            assert(before.push(json_view(d)) + hosts_doc(hs.skip(i + 1))
                =~= before + (seq![json_view(d)] + hosts_doc(hs.skip(i + 1))));
        }
        i = i + 1;
    }
    proof {
        assert(hs.skip(i as int) =~= Seq::<Seq<char>>::empty());
        assert(docs@.map_values(|x: serde_json::Value| json_view(x)) + Seq::<JsonV>::empty()
            =~= docs@.map_values(|x: serde_json::Value| json_view(x)));
    }
    let arr = json_array(docs);
    let nm = json_string(c.name.clone());
    let mut members: Vec<(String, serde_json::Value)> = Vec::new();
    members.push(("hosts".to_owned(), arr));
    members.push(("name".to_owned(), nm));
    proof {
        assert(members@.map_values(|m: (String, serde_json::Value)| (m.0@, json_view(m.1)))
            =~= seq![("hosts"@, JsonV::Array(hosts_doc(hs))), ("name"@, JsonV::Str(c.name@))]);
    }
    proof {
        reveal_strlit("hosts");
        reveal_strlit("name");
        reveal_with_fuel(text_lt, 2);
        assert(text_lt("hosts"@, "name"@));
    }
    let doc = json_object(members);
    proof {
        assert(json_view(doc) == cluster_doc(c@));
    }
    doc
}

proof fn lemma_hosts_round_trip(hs: Seq<Seq<char>>, path: Seq<char>)
    ensures
        strings_of(hosts_doc(hs), path) == Ok::<Seq<Seq<char>>, DecodeFault>(hs),
    decreases hs.len(),
{
    if hs.len() > 0 {
        lemma_hosts_round_trip(hs.drop_first(), path);
        let items = hosts_doc(hs);
        assert(items == seq![JsonV::Str(hs[0])] + hosts_doc(hs.drop_first()));
        assert(items[0] == JsonV::Str(hs[0]));
        assert(items.drop_first() =~= hosts_doc(hs.drop_first()));
        assert(seq![hs[0]] + hs.drop_first() =~= hs);
    } else {
        assert(hosts_doc(hs) =~= Seq::<JsonV>::empty());
        assert(hs =~= Seq::<Seq<char>>::empty());
    }
}

proof fn lemma_cluster_round_trip(c: ClusterV)
    ensures
        cluster_of(cluster_doc(c)) == Ok::<ClusterV, DecodeFault>(c),
{
    reveal_strlit("hosts");
    reveal_strlit("name");
    reveal_with_fuel(member, 3);
    let ms = seq![("hosts"@, JsonV::Array(hosts_doc(c.hosts))), ("name"@, JsonV::Str(c.name))];
    assert("hosts"@.len() == 5 && "name"@.len() == 4);
    assert(ms.drop_first()[0] == ("name"@, JsonV::Str(c.name)));
    assert(member(ms, "name"@) == Some(JsonV::Str(c.name)));
    assert(member(ms, "hosts"@) == Some(JsonV::Array(hosts_doc(c.hosts))));
    lemma_hosts_round_trip(c.hosts, "clusters.hosts"@);
}

proof fn lemma_clusters_round_trip(cs: Seq<ClusterV>)
    ensures
        clusters_of(clusters_doc(cs)) == Ok::<Seq<ClusterV>, DecodeFault>(cs),
    decreases cs.len(),
{
    if cs.len() > 0 {
        lemma_clusters_round_trip(cs.drop_first());
        lemma_cluster_round_trip(cs[0]);
        let items = clusters_doc(cs);
        assert(items == seq![cluster_doc(cs[0])] + clusters_doc(cs.drop_first()));
        assert(items[0] == cluster_doc(cs[0]));
        assert(items.drop_first() =~= clusters_doc(cs.drop_first()));
        assert(seq![cs[0]] + cs.drop_first() =~= cs);
    } else {
        assert(clusters_doc(cs) =~= Seq::<JsonV>::empty());
        assert(cs =~= Seq::<ClusterV>::empty());
    }
}

/// Reading back the document that a configuration is written as gives the
/// same configuration (the file path is no part of the document).
pub proof fn lemma_config_document_round_trip(c: ConfigV)
    ensures
        config_doc(config_document(c)) == Ok::<ConfigV, DecodeFault>(c),
{
    reveal_strlit("clusters");
    reveal_strlit("current-cluster");
    reveal_with_fuel(member, 3);
    let ms = config_members(c);
    assert("clusters"@.len() == 8 && "current-cluster"@.len() == 15);
    assert(ms.drop_first()[0] == ms[1]);
    assert(member(ms, "current-cluster"@) == Some(ms[1].1));
    assert(member(ms, "clusters"@) == Some(JsonV::Array(clusters_doc(c.clusters))));
    lemma_clusters_round_trip(c.clusters);
}

} // verus!
