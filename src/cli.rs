//! The configuration commands: selecting, adding and removing clusters.
use vstd::prelude::*;
use crate::config::{
    add_cluster_of, current_context_of, has_cluster, lemma_add_cluster_then_current_context, ClusterV, remove_cluster_of, texts_view, use_cluster_of, Config, ConfigError, ConfigFault, ConfigV,
};
use crate::text::{join_on, lemma_split_join, split_on, split_text};

verus! {

/// Makes a cluster the current one.
#[derive(Debug)]
pub struct UseCluster {
    pub cluster: String,
}

/// Adds a cluster from a comma-separated list of hosts.
#[derive(Debug)]
pub struct AddCluster {
    pub name: String,
    pub hosts: String,
}

/// Removes a cluster.
#[derive(Debug)]
pub struct RemoveCluster {
    pub name: String,
}

/// The configuration commands.
#[derive(Debug)]
pub enum ConfigAction {
    UseCluster(UseCluster),
    CurrentContext,
    GetClusters,
    AddCluster(AddCluster),
    RemoveCluster(RemoveCluster),
}

impl UseCluster {
    /// Selects the cluster; an unknown name changes nothing.
    pub fn run(&self, current_config: &mut Config) -> (r: Result<(), ConfigError>)
        ensures
            match r {
                Ok(_) => use_cluster_of(old(current_config)@, self.cluster@) == Ok::<ConfigV, ConfigFault>(final(current_config)@),
                Err(e) => use_cluster_of(old(current_config)@, self.cluster@) == Err::<ConfigV, ConfigFault>(e@)
                    && *final(current_config) == *old(current_config),
            },
            final(current_config).file_path == old(current_config).file_path,
    {
        current_config.use_cluster(self.cluster.as_str())
    }
}

impl AddCluster {
    /// Adds the cluster with its hosts split at each comma (empty pieces
    /// kept) and makes it current; an existing name changes nothing.
    pub fn run(&self, current_config: &mut Config) -> (r: Result<(), ConfigError>)
        ensures
            match r {
                Ok(_) => add_cluster_of(old(current_config)@, self.name@, split_on(self.hosts@, ','))
                    == Ok::<ConfigV, ConfigFault>(final(current_config)@),
                Err(e) => add_cluster_of(old(current_config)@, self.name@, split_on(self.hosts@, ','))
                    == Err::<ConfigV, ConfigFault>(e@) && *final(current_config) == *old(current_config),
            },
            final(current_config).file_path == old(current_config).file_path,
    {
        let hosts = split_text(self.hosts.as_str(), ',');
        proof {
            assert(texts_view(hosts@) == split_on(self.hosts@, ','));
        }
        current_config.add_cluster(self.name.as_str(), hosts)
    }
}

impl RemoveCluster {
    /// Removes the cluster; an unknown name changes nothing.
    pub fn run(&self, current_config: &mut Config) -> (r: Result<(), ConfigError>)
        ensures
            match r {
                Ok(_) => remove_cluster_of(old(current_config)@, self.name@) == Ok::<ConfigV, ConfigFault>(final(current_config)@),
                Err(e) => remove_cluster_of(old(current_config)@, self.name@) == Err::<ConfigV, ConfigFault>(e@)
                    && *final(current_config) == *old(current_config),
            },
            final(current_config).file_path == old(current_config).file_path,
    {
        current_config.remove_cluster(self.name.as_str())
    }
}

/// Adding a cluster under a new name, with its hosts given as a
/// comma-separated text of one or more hosts that hold no comma, makes it the
/// current context, with exactly that name and that list of hosts, in order.
pub proof fn lemma_add_cluster_command_then_current_context(c: ConfigV, name: Seq<char>, hosts: Seq<Seq<char>>)
    requires
        !has_cluster(c.clusters, name),
        hosts.len() >= 1,
        forall|i: int, j: int| 0 <= i < hosts.len() && 0 <= j < hosts[i].len() ==> hosts[i][j] != ',',
    ensures
        add_cluster_of(c, name, split_on(join_on(hosts, ','), ',')) is Ok,
        current_context_of(add_cluster_of(c, name, split_on(join_on(hosts, ','), ','))->Ok_0)
            == Ok::<ClusterV, ConfigFault>(ClusterV { name, hosts }),
{
    lemma_split_join(hosts, ',');
    lemma_add_cluster_then_current_context(c, name, hosts);
}

} // verus!
