//! The controller context: one resource store per resource kind, a shared
//! health tracker, the immutable startup configuration, and a metrics
//! aggregator. It is built once at controller startup and handed by shared
//! ownership to every connection-handling and reconciliation task; it is an
//! explicit value, never a process-wide singleton, so independent instances
//! can coexist.

use std::sync::Arc;

use vstd::prelude::*;

use crate::store::HealthCheck;
use crate::store::MetadataItem;
use crate::store::StoreContext;

verus! {

/// Spec of one storage/processing unit.
#[derive(Debug)]
pub struct SpuSpec {
    pub id: u32,
    pub public_endpoint: String,
}

/// Spec of one partition.
#[derive(Debug)]
pub struct PartitionSpec {
    pub leader: u32,
    pub replicas: Vec<u32>,
}

/// Spec of one topic.
#[derive(Debug)]
pub struct TopicSpec {
    pub partitions: u32,
    pub replication_factor: u32,
    pub ignore_rack_assignment: bool,
}

/// Spec of one storage/processing unit group.
#[derive(Debug)]
pub struct SpuGroupSpec {
    pub replicas: u32,
    pub min_id: u32,
}

/// Spec of one pluggable transform module.
#[derive(Debug)]
pub struct SmartModuleSpec {
    pub package_name: String,
    pub version: String,
}

/// Spec of one table format.
#[derive(Debug)]
pub struct TableFormatSpec {
    pub name: String,
    pub input_format: String,
}

/// Spec of one remote cluster link.
#[derive(Debug)]
pub struct RemoteClusterSpec {
    pub remote_type: String,
}

/// Spec of one upstream cluster link.
#[derive(Debug)]
pub struct UpstreamClusterSpec {
    pub target: String,
    pub source_id: String,
}

/// Immutable startup configuration of the controller.
#[derive(Debug)]
pub struct ScConfig {
    pub id: u32,
    pub namespace: String,
    pub public_endpoint: String,
    pub private_endpoint: String,
}

impl Default for ScConfig {
    /// A configuration with identity zero and empty addresses.
    fn default() -> (r: ScConfig)
        ensures
            r.id == 0,
            r.namespace@ == Seq::<char>::empty(),
            r.public_endpoint@ == Seq::<char>::empty(),
            r.private_endpoint@ == Seq::<char>::empty(),
    {
        ScConfig {
            id: 0,
            namespace: String::new(),
            public_endpoint: String::new(),
            private_endpoint: String::new(),
        }
    }
}

/// The controller's metrics aggregator.
#[derive(Debug, Clone, Copy, PartialEq, Eq, Structural)]
pub struct ScMetrics {
    pub requests_handled: u64,
    pub responses_sent: u64,
}

impl ScMetrics {
    /// A fresh aggregator with all counters at zero.
    pub fn new() -> (r: ScMetrics)
        ensures
            r.requests_handled == 0,
            r.responses_sent == 0,
    {
        ScMetrics { requests_handled: 0, responses_sent: 0 }
    }

    /// Counts one handled request; the counter saturates at its maximum.
    pub fn inc_requests(&mut self)
        ensures
            final(self).requests_handled == if old(self).requests_handled < u64::MAX {
                (old(self).requests_handled + 1) as u64
            } else {
                u64::MAX
            },
            final(self).responses_sent == old(self).responses_sent,
    {
        if self.requests_handled < u64::MAX {
            self.requests_handled = self.requests_handled + 1;
        }
    }

    /// Counts one sent response; the counter saturates at its maximum.
    pub fn inc_responses(&mut self)
        ensures
            final(self).responses_sent == if old(self).responses_sent < u64::MAX {
                (old(self).responses_sent + 1) as u64
            } else {
                u64::MAX
            },
            final(self).requests_handled == old(self).requests_handled,
    {
        if self.responses_sent < u64::MAX {
            self.responses_sent = self.responses_sent + 1;
        }
    }
}

/// Global context for the controller: the single shared handle passed to
/// all request handlers and reconciliation tasks.
#[derive(Debug)]
pub struct Context<C: MetadataItem> {
    pub spus: StoreContext<SpuSpec, C>,
    pub partitions: StoreContext<PartitionSpec, C>,
    pub topics: StoreContext<TopicSpec, C>,
    pub spgs: StoreContext<SpuGroupSpec, C>,
    pub smartmodules: StoreContext<SmartModuleSpec, C>,
    pub tableformats: StoreContext<TableFormatSpec, C>,
    pub remote_clusters: StoreContext<RemoteClusterSpec, C>,
    pub upstream_clusters: StoreContext<UpstreamClusterSpec, C>,
    pub health: HealthCheck,
    pub config: ScConfig,
    pub metrics: ScMetrics,
}

/// The context as it is shared across tasks.
pub type SharedContext<C> = Arc<Context<C>>;

impl<C: MetadataItem> Context<C> {
    /// All stores are well formed. Construction establishes it and every
    /// update through the mutable accessors preserves it.
    pub open spec fn wf(&self) -> bool {
        &&& self.spus.wf()
        &&& self.partitions.wf()
        &&& self.topics.wf()
        &&& self.spgs.wf()
        &&& self.smartmodules.wf()
        &&& self.tableformats.wf()
        &&& self.remote_clusters.wf()
        &&& self.upstream_clusters.wf()
        &&& self.health.wf()
    }

    /// Builds the context once from configuration and hands it out by
    /// shared ownership.
    pub fn shared_metadata(config: ScConfig) -> (r: Arc<Context<C>>)
        ensures
            r.spus.spec_entries().len() == 0,
            r.partitions.spec_entries().len() == 0,
            r.topics.spec_entries().len() == 0,
            r.spgs.spec_entries().len() == 0,
            r.smartmodules.spec_entries().len() == 0,
            r.tableformats.spec_entries().len() == 0,
            r.remote_clusters.spec_entries().len() == 0,
            r.upstream_clusters.spec_entries().len() == 0,
            r.health.spec_entries().len() == 0,
            r.config == config,
            r.metrics == (ScMetrics { requests_handled: 0, responses_sent: 0 }),
            r.wf(),
    {
        Arc::new(Self::new(config))
    }

    /// Provisions the context: empty stores, a fresh health tracker, a
    /// fresh metrics aggregator, and the given configuration.
    fn new(config: ScConfig) -> (r: Context<C>)
        ensures
            r.spus.spec_entries().len() == 0,
            r.partitions.spec_entries().len() == 0,
            r.topics.spec_entries().len() == 0,
            r.spgs.spec_entries().len() == 0,
            r.smartmodules.spec_entries().len() == 0,
            r.tableformats.spec_entries().len() == 0,
            r.remote_clusters.spec_entries().len() == 0,
            r.upstream_clusters.spec_entries().len() == 0,
            r.health.spec_entries().len() == 0,
            r.config == config,
            r.metrics == (ScMetrics { requests_handled: 0, responses_sent: 0 }),
            r.wf(),
    {
        Context {
            spus: StoreContext::new(),
            partitions: StoreContext::new(),
            topics: StoreContext::new(),
            spgs: StoreContext::new(),
            smartmodules: StoreContext::new(),
            tableformats: StoreContext::new(),
            remote_clusters: StoreContext::new(),
            upstream_clusters: StoreContext::new(),
            health: HealthCheck::new(),
            config,
            metrics: ScMetrics::new(),
        }
    }

    /// Reference to the store of storage/processing units.
    pub fn spus(&self) -> (r: &StoreContext<SpuSpec, C>)
        ensures
            *r == self.spus,
    {
        &self.spus
    }

    /// Mutable reference to the store of storage/processing units; every other part of the
    /// context stays as it was.
    pub fn spus_mut(&mut self) -> (r: &mut StoreContext<SpuSpec, C>)
        ensures
            *r == old(self).spus,
            final(self).spus == *final(r),
            final(self).partitions == old(self).partitions,
            final(self).topics == old(self).topics,
            final(self).spgs == old(self).spgs,
            final(self).smartmodules == old(self).smartmodules,
            final(self).tableformats == old(self).tableformats,
            final(self).remote_clusters == old(self).remote_clusters,
            final(self).upstream_clusters == old(self).upstream_clusters,
            final(self).health == old(self).health,
            final(self).config == old(self).config,
            final(self).metrics == old(self).metrics,
    {
        &mut self.spus
    }

    /// Reference to the store of partitions.
    pub fn partitions(&self) -> (r: &StoreContext<PartitionSpec, C>)
        ensures
            *r == self.partitions,
    {
        &self.partitions
    }

    /// Mutable reference to the store of partitions; every other part of the
    /// context stays as it was.
    pub fn partitions_mut(&mut self) -> (r: &mut StoreContext<PartitionSpec, C>)
        ensures
            *r == old(self).partitions,
            final(self).partitions == *final(r),
            final(self).spus == old(self).spus,
            final(self).topics == old(self).topics,
            final(self).spgs == old(self).spgs,
            final(self).smartmodules == old(self).smartmodules,
            final(self).tableformats == old(self).tableformats,
            final(self).remote_clusters == old(self).remote_clusters,
            final(self).upstream_clusters == old(self).upstream_clusters,
            final(self).health == old(self).health,
            final(self).config == old(self).config,
            final(self).metrics == old(self).metrics,
    {
        &mut self.partitions
    }

    /// Reference to the store of topics.
    pub fn topics(&self) -> (r: &StoreContext<TopicSpec, C>)
        ensures
            *r == self.topics,
    {
        &self.topics
    }

    /// Mutable reference to the store of topics; every other part of the
    /// context stays as it was.
    pub fn topics_mut(&mut self) -> (r: &mut StoreContext<TopicSpec, C>)
        ensures
            *r == old(self).topics,
            final(self).topics == *final(r),
            final(self).spus == old(self).spus,
            final(self).partitions == old(self).partitions,
            final(self).spgs == old(self).spgs,
            final(self).smartmodules == old(self).smartmodules,
            final(self).tableformats == old(self).tableformats,
            final(self).remote_clusters == old(self).remote_clusters,
            final(self).upstream_clusters == old(self).upstream_clusters,
            final(self).health == old(self).health,
            final(self).config == old(self).config,
            final(self).metrics == old(self).metrics,
    {
        &mut self.topics
    }

    /// Reference to the store of storage/processing unit groups.
    pub fn spgs(&self) -> (r: &StoreContext<SpuGroupSpec, C>)
        ensures
            *r == self.spgs,
    {
        &self.spgs
    }

    /// Mutable reference to the store of storage/processing unit groups; every other part of the
    /// context stays as it was.
    pub fn spgs_mut(&mut self) -> (r: &mut StoreContext<SpuGroupSpec, C>)
        ensures
            *r == old(self).spgs,
            final(self).spgs == *final(r),
            final(self).spus == old(self).spus,
            final(self).partitions == old(self).partitions,
            final(self).topics == old(self).topics,
            final(self).smartmodules == old(self).smartmodules,
            final(self).tableformats == old(self).tableformats,
            final(self).remote_clusters == old(self).remote_clusters,
            final(self).upstream_clusters == old(self).upstream_clusters,
            final(self).health == old(self).health,
            final(self).config == old(self).config,
            final(self).metrics == old(self).metrics,
    {
        &mut self.spgs
    }

    /// Reference to the store of pluggable transforms.
    pub fn smartmodules(&self) -> (r: &StoreContext<SmartModuleSpec, C>)
        ensures
            *r == self.smartmodules,
    {
        &self.smartmodules
    }

    /// Mutable reference to the store of pluggable transforms; every other part of the
    /// context stays as it was.
    pub fn smartmodules_mut(&mut self) -> (r: &mut StoreContext<SmartModuleSpec, C>)
        ensures
            *r == old(self).smartmodules,
            final(self).smartmodules == *final(r),
            final(self).spus == old(self).spus,
            final(self).partitions == old(self).partitions,
            final(self).topics == old(self).topics,
            final(self).spgs == old(self).spgs,
            final(self).tableformats == old(self).tableformats,
            final(self).remote_clusters == old(self).remote_clusters,
            final(self).upstream_clusters == old(self).upstream_clusters,
            final(self).health == old(self).health,
            final(self).config == old(self).config,
            final(self).metrics == old(self).metrics,
    {
        &mut self.smartmodules
    }

    /// Reference to the store of table formats.
    pub fn tableformats(&self) -> (r: &StoreContext<TableFormatSpec, C>)
        ensures
            *r == self.tableformats,
    {
        &self.tableformats
    }

    /// Mutable reference to the store of table formats; every other part of the
    /// context stays as it was.
    pub fn tableformats_mut(&mut self) -> (r: &mut StoreContext<TableFormatSpec, C>)
        ensures
            *r == old(self).tableformats,
            final(self).tableformats == *final(r),
            final(self).spus == old(self).spus,
            final(self).partitions == old(self).partitions,
            final(self).topics == old(self).topics,
            final(self).spgs == old(self).spgs,
            final(self).smartmodules == old(self).smartmodules,
            final(self).remote_clusters == old(self).remote_clusters,
            final(self).upstream_clusters == old(self).upstream_clusters,
            final(self).health == old(self).health,
            final(self).config == old(self).config,
            final(self).metrics == old(self).metrics,
    {
        &mut self.tableformats
    }

    /// Reference to the store of remote clusters.
    pub fn remote_clusters(&self) -> (r: &StoreContext<RemoteClusterSpec, C>)
        ensures
            *r == self.remote_clusters,
    {
        &self.remote_clusters
    }

    /// Mutable reference to the store of remote clusters; every other part of the
    /// context stays as it was.
    pub fn remote_clusters_mut(&mut self) -> (r: &mut StoreContext<RemoteClusterSpec, C>)
        ensures
            *r == old(self).remote_clusters,
            final(self).remote_clusters == *final(r),
            final(self).spus == old(self).spus,
            final(self).partitions == old(self).partitions,
            final(self).topics == old(self).topics,
            final(self).spgs == old(self).spgs,
            final(self).smartmodules == old(self).smartmodules,
            final(self).tableformats == old(self).tableformats,
            final(self).upstream_clusters == old(self).upstream_clusters,
            final(self).health == old(self).health,
            final(self).config == old(self).config,
            final(self).metrics == old(self).metrics,
    {
        &mut self.remote_clusters
    }

    /// Reference to the store of upstream clusters.
    pub fn upstream_clusters(&self) -> (r: &StoreContext<UpstreamClusterSpec, C>)
        ensures
            *r == self.upstream_clusters,
    {
        &self.upstream_clusters
    }

    /// Mutable reference to the store of upstream clusters; every other part of the
    /// context stays as it was.
    pub fn upstream_clusters_mut(&mut self) -> (r: &mut StoreContext<UpstreamClusterSpec, C>)
        ensures
            *r == old(self).upstream_clusters,
            final(self).upstream_clusters == *final(r),
            final(self).spus == old(self).spus,
            final(self).partitions == old(self).partitions,
            final(self).topics == old(self).topics,
            final(self).spgs == old(self).spgs,
            final(self).smartmodules == old(self).smartmodules,
            final(self).tableformats == old(self).tableformats,
            final(self).remote_clusters == old(self).remote_clusters,
            final(self).health == old(self).health,
            final(self).config == old(self).config,
            final(self).metrics == old(self).metrics,
    {
        &mut self.upstream_clusters
    }
    /// Reference to the health tracker of storage/processing unit liveness.
    pub fn health(&self) -> (r: &HealthCheck)
        ensures
            *r == self.health,
    {
        &self.health
    }

    /// Mutable reference to the health tracker; every other part of the
    /// context stays as it was.
    pub fn health_mut(&mut self) -> (r: &mut HealthCheck)
        ensures
            *r == old(self).health,
            final(self).health == *final(r),
            final(self).spus == old(self).spus,
            final(self).partitions == old(self).partitions,
            final(self).topics == old(self).topics,
            final(self).spgs == old(self).spgs,
            final(self).smartmodules == old(self).smartmodules,
            final(self).tableformats == old(self).tableformats,
            final(self).remote_clusters == old(self).remote_clusters,
            final(self).upstream_clusters == old(self).upstream_clusters,
            final(self).config == old(self).config,
            final(self).metrics == old(self).metrics,
    {
        &mut self.health
    }

    /// Reference to the immutable startup configuration.
    pub fn config(&self) -> (r: &ScConfig)
        ensures
            *r == self.config,
    {
        &self.config
    }

    /// The namespace the controller watches.
    pub fn namespace(&self) -> (r: &str)
        ensures
            r@ == self.config.namespace@,
    {
        self.config.namespace.as_str()
    }

    /// The metrics aggregator.
    pub fn metrics(&self) -> (r: &ScMetrics)
        ensures
            *r == self.metrics,
    {
        &self.metrics
    }

    /// Mutable reference to the metrics aggregator; every other part of the
    /// context stays as it was.
    pub fn metrics_mut(&mut self) -> (r: &mut ScMetrics)
        ensures
            *r == old(self).metrics,
            final(self).metrics == *final(r),
            final(self).spus == old(self).spus,
            final(self).partitions == old(self).partitions,
            final(self).topics == old(self).topics,
            final(self).spgs == old(self).spgs,
            final(self).smartmodules == old(self).smartmodules,
            final(self).tableformats == old(self).tableformats,
            final(self).remote_clusters == old(self).remote_clusters,
            final(self).upstream_clusters == old(self).upstream_clusters,
            final(self).health == old(self).health,
            final(self).config == old(self).config,
    {
        &mut self.metrics
    }
}

} // verus!
