//! Assembly of the report of one polling cycle from whatever its sources
//! gave. Each source fills its own field; one that gave nothing leaves its
//! field absent and touches no other.

use vstd::prelude::*;
use crate::api_models::{NodesApi, PoolsApi, ReplicasApi, VolumesApi};
use crate::report_models::{text_view, Pools, Replicas, Report, ReportView, Volumes};

verus! {

/// What the cluster API gave in one polling cycle. A field is absent where
/// its fetch failed.
#[derive(Debug)]
pub struct ClusterFacts {
    /// The number of nodes of the cluster.
    pub node_count: Option<usize>,
    /// The identity of the cluster, as the cluster API spells it.
    pub cluster_id: Option<String>,
}

/// What the storage control plane gave in one polling cycle. A listing is
/// absent where its fetch failed.
#[derive(Debug)]
pub struct StorageEntities {
    pub nodes: Option<Vec<NodesApi>>,
    pub pools: Option<Vec<PoolsApi>>,
    pub volumes: Option<VolumesApi>,
    pub replicas: Option<Vec<ReplicasApi>>,
}

/// The SHA-256 digest of the UTF-8 encoding of a text, written as lower-case
/// hexadecimal digits.
pub uninterp spec fn sha256_hex(text: Seq<char>) -> Seq<char>;

/// Hashes a text with `sha256::digest`.
///
/// Trusted: the result is the SHA-256 digest of the bytes of the text in
/// hexadecimal, which depends on the text alone.
#[verifier::external_body]
fn digest(text: String) -> (hash: String)
    ensures
        hash@ == sha256_hex(text@),
{
    sha256::digest(text)
}

/// The name of the product that reports.
pub open spec fn product() -> Seq<char> {
    "Bolt"@
}

fn product_name() -> (name: String)
    ensures
        name@ == product(),
{
    "Bolt".to_owned()
}

/// A count as the report carries it.
pub open spec fn count_view(count: Option<usize>) -> Option<u64> {
    match count {
        Some(count) => Some(count as u64),
        None => None,
    }
}

/// The digest of a cluster identity that may be absent.
pub open spec fn hashed(cluster_id: Option<String>) -> Option<Seq<char>> {
    match cluster_id {
        Some(cluster_id) => Some(sha256_hex(cluster_id@)),
        None => None,
    }
}

/// The report that a polling cycle assembles from the node count of the
/// cluster, the digest of its identity and the storage listings.
pub open spec fn assembled(
    k8s_node_count: Option<usize>,
    k8s_cluster_id: Option<Seq<char>>,
    storage: StorageEntities,
) -> ReportView {
    ReportView {
        k8s_cluster_id: k8s_cluster_id,
        k8s_node_count: count_view(k8s_node_count),
        product_name: Some(product()),
        product_version: None,
        deploy_namespace: None,
        storage_node_count: match storage.nodes {
            Some(nodes) => Some(nodes@.len() as u64),
            None => None,
        },
        pools: match storage.pools {
            Some(pools) => Some(Pools::of_pools(pools@)),
            None => None,
        },
        volumes: match storage.volumes {
            Some(volumes) => Some(Volumes::of_entries(volumes.entries@)),
            None => None,
        },
        replicas: match storage.replicas {
            Some(replicas) => Some(Replicas::of(replicas@.len() as usize, storage.volumes)),
            None => None,
        },
        versions: None,
    }
}

/// Assembles the report from the node count of the cluster, the digest of
/// its identity and the storage listings.
pub fn assemble_report(
    k8s_node_count: Option<usize>,
    k8s_cluster_id: Option<String>,
    storage: StorageEntities,
) -> (report: Report)
    ensures
        report@ == assembled(k8s_node_count, text_view(k8s_cluster_id), storage),
{
    let StorageEntities { nodes, pools, volumes, replicas } = storage;
    let mut report = Report::new();
    report.product_name = Some(product_name());
    match k8s_node_count {
        Some(k8s_node_count) => report.k8s_node_count = Some(k8s_node_count as u64),
        None => {},
    };
    report.k8s_cluster_id = k8s_cluster_id;
    match nodes {
        Some(nodes) => report.storage_node_count = Some(nodes.len() as u64),
        None => {},
    };
    match pools {
        Some(pools) => report.pools = Some(Pools::new(pools)),
        None => {},
    };
    match &volumes {
        Some(volumes) => report.volumes = Some(Volumes::new(volumes.clone())),
        None => {},
    };
    match replicas {
        Some(replicas) => report.replicas = Some(Replicas::new(replicas.len(), volumes)),
        None => {},
    };
    report
}

/// Builds the report of one polling cycle: hashes the identity of the
/// cluster, where there is one, and assembles the report.
pub fn generate_report(cluster: ClusterFacts, storage: StorageEntities) -> (report: Report)
    ensures
        report@ == assembled(cluster.node_count, hashed(cluster.cluster_id), storage),
{
    let ClusterFacts { node_count, cluster_id } = cluster;
    let k8s_cluster_id = match cluster_id {
        Some(cluster_id) => Some(digest(cluster_id)),
        None => None,
    };
    assemble_report(node_count, k8s_cluster_id, storage)
}

/// Where the identity of the cluster could not be had but the pools and the
/// volumes were listed, the report lacks the identity and holds the full
/// summaries of the pools and of the volumes.
pub proof fn lemma_report_without_cluster_id(
    k8s_node_count: Option<usize>,
    storage: StorageEntities,
)
    requires
        storage.pools is Some,
        storage.volumes is Some,
    ensures
        assembled(k8s_node_count, None, storage).k8s_cluster_id is None,
        assembled(k8s_node_count, None, storage).pools == Some(
            Pools::of_pools(storage.pools->0@),
        ),
        assembled(k8s_node_count, None, storage).volumes == Some(
            Volumes::of_entries(storage.volumes->0.entries@),
        ),
{
}

/// Each field of the report depends on its own source alone: two cycles that
/// agree on a source agree on the field that it fills.
pub proof fn lemma_sources_independent(
    k8s_node_count: Option<usize>,
    k8s_cluster_id: Option<Seq<char>>,
    storage: StorageEntities,
    other_node_count: Option<usize>,
    other_cluster_id: Option<Seq<char>>,
    other: StorageEntities,
)
    ensures
        ({
            let a = assembled(k8s_node_count, k8s_cluster_id, storage);
            let b = assembled(other_node_count, other_cluster_id, other);
            &&& k8s_node_count == other_node_count ==> a.k8s_node_count == b.k8s_node_count
            &&& k8s_cluster_id == other_cluster_id ==> a.k8s_cluster_id == b.k8s_cluster_id
            &&& storage.nodes == other.nodes ==> a.storage_node_count == b.storage_node_count
            &&& storage.pools == other.pools ==> a.pools == b.pools
            &&& storage.volumes == other.volumes ==> a.volumes == b.volumes
            &&& storage.replicas == other.replicas && storage.volumes == other.volumes ==> a.replicas
                == b.replicas
        }),
{
}

} // verus!
