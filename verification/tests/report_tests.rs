use telemetry_report::api_models::{
    NodesApi, PoolsApi, PoolsState, ReplicasApi, VolumeSpec, VolumeStats, VolumesApi,
};
use telemetry_report::assembler::{
    assemble_report, generate_report, ClusterFacts, StorageEntities,
};
use telemetry_report::report_models::{Pools, Replicas, Report, Versions, Volumes};
use telemetry_report::summary::Percentiles;

fn volume(num_replicas: u64, size: u64) -> VolumeStats {
    VolumeStats { spec: VolumeSpec { num_replicas, size } }
}

fn pool(capacity: u64) -> PoolsApi {
    PoolsApi { state: PoolsState { capacity } }
}

fn node(id: &str) -> NodesApi {
    NodesApi { id: id.to_string() }
}

fn replica(node: &str) -> ReplicasApi {
    ReplicasApi { node: node.to_string() }
}

fn nothing() -> StorageEntities {
    StorageEntities { nodes: None, pools: None, volumes: None, replicas: None }
}

fn everything() -> StorageEntities {
    StorageEntities {
        nodes: Some(vec![node("a"), node("b")]),
        pools: Some(vec![pool(4), pool(1), pool(3), pool(2)]),
        volumes: Some(VolumesApi { entries: vec![volume(3, 30), volume(1, 10), volume(2, 20)] }),
        replicas: Some(vec![replica("a"), replica("a"), replica("b"), replica("b"), replica("b")]),
    }
}

fn expected_pools() -> Pools {
    Pools {
        count: 4,
        max_size_in_bytes: 4,
        min_size_in_bytes: 1,
        capacity_percentiles_in_bytes: Percentiles {
            percentile_50: 2,
            percentile_75: 3,
            percentile_90: 3,
        },
    }
}

fn expected_volumes() -> Volumes {
    Volumes {
        count: 3,
        max_size_in_bytes: 30,
        min_size_in_bytes: 10,
        capacity_percentiles_in_bytes: Percentiles {
            percentile_50: 15,
            percentile_75: 25,
            percentile_90: 25,
        },
    }
}

#[test]
fn new_report_is_empty() {
    let report = Report::new();
    assert!(report.k8s_cluster_id.is_none());
    assert!(report.k8s_node_count.is_none());
    assert!(report.product_name.is_none());
    assert!(report.product_version.is_none());
    assert!(report.deploy_namespace.is_none());
    assert!(report.storage_node_count.is_none());
    assert!(report.pools.is_none());
    assert!(report.volumes.is_none());
    assert!(report.replicas.is_none());
    assert!(report.versions.is_none());
}

#[test]
fn new_versions_are_empty() {
    assert_eq!(Versions::new().control_plane_version, "");
}

#[test]
fn report_without_cluster_id_keeps_pools_and_volumes() {
    let cluster = ClusterFacts { node_count: Some(3), cluster_id: None };
    let report = generate_report(cluster, everything());
    assert!(report.k8s_cluster_id.is_none());
    assert_eq!(report.pools, Some(expected_pools()));
    assert_eq!(report.volumes, Some(expected_volumes()));
    assert_eq!(report.k8s_node_count, Some(3));
}

#[test]
fn report_of_a_full_cycle() {
    let cluster = ClusterFacts { node_count: Some(3), cluster_id: Some("hello".to_string()) };
    let report = generate_report(cluster, everything());
    assert_eq!(
        report.k8s_cluster_id.as_deref(),
        Some("2cf24dba5fb0a30e26e83b2ac5b9e29e1b161e5c1fa7425e73043362938b9824")
    );
    assert_eq!(report.k8s_node_count, Some(3));
    assert_eq!(report.product_name.as_deref(), Some("Bolt"));
    assert!(report.product_version.is_none());
    assert!(report.deploy_namespace.is_none());
    assert_eq!(report.storage_node_count, Some(2));
    assert_eq!(report.pools, Some(expected_pools()));
    assert_eq!(report.volumes, Some(expected_volumes()));
    assert_eq!(
        report.replicas,
        Some(Replicas {
            count: 5,
            count_per_volume_percentiles: Percentiles {
                percentile_50: 1,
                percentile_75: 2,
                percentile_90: 2,
            },
        })
    );
    assert!(report.versions.is_none());
}

#[test]
fn cluster_id_is_hashed_not_stored() {
    let cluster = ClusterFacts { node_count: None, cluster_id: Some("abc".to_string()) };
    let report = generate_report(cluster, nothing());
    assert_eq!(
        report.k8s_cluster_id.as_deref(),
        Some("ba7816bf8f01cfea414140de5dae2223b00361a396177a9cb410ff61f20015ad")
    );
    let empty = ClusterFacts { node_count: None, cluster_id: Some(String::new()) };
    let report = generate_report(empty, nothing());
    assert_eq!(
        report.k8s_cluster_id.as_deref(),
        Some("e3b0c44298fc1c149afbf4c8996fb92427ae41e4649b934ca495991b7852b855")
    );
}

#[test]
fn report_of_a_cycle_in_which_every_source_failed() {
    let cluster = ClusterFacts { node_count: None, cluster_id: None };
    let report = generate_report(cluster, nothing());
    assert!(report.k8s_cluster_id.is_none());
    assert!(report.k8s_node_count.is_none());
    assert_eq!(report.product_name.as_deref(), Some("Bolt"));
    assert!(report.product_version.is_none());
    assert!(report.deploy_namespace.is_none());
    assert!(report.storage_node_count.is_none());
    assert!(report.pools.is_none());
    assert!(report.volumes.is_none());
    assert!(report.replicas.is_none());
    assert!(report.versions.is_none());
}

#[test]
fn replicas_without_volumes_in_report() {
    let mut storage = nothing();
    storage.replicas =
        Some(vec![replica("a"), replica("b"), replica("c"), replica("d"), replica("e")]);
    let report = generate_report(ClusterFacts { node_count: None, cluster_id: None }, storage);
    assert!(report.volumes.is_none());
    assert_eq!(
        report.replicas,
        Some(Replicas {
            count: 5,
            count_per_volume_percentiles: Percentiles {
                percentile_50: 0,
                percentile_75: 0,
                percentile_90: 0,
            },
        })
    );
}

#[test]
fn volumes_without_replicas_in_report() {
    let mut storage = everything();
    storage.replicas = None;
    let report = generate_report(ClusterFacts { node_count: None, cluster_id: None }, storage);
    assert_eq!(report.volumes, Some(expected_volumes()));
    assert!(report.replicas.is_none());
}

#[test]
fn empty_listings_give_zero_summaries_not_absence() {
    let storage = StorageEntities {
        nodes: Some(Vec::new()),
        pools: Some(Vec::new()),
        volumes: Some(VolumesApi { entries: Vec::new() }),
        replicas: Some(Vec::new()),
    };
    let report = generate_report(ClusterFacts { node_count: Some(0), cluster_id: None }, storage);
    assert_eq!(report.k8s_node_count, Some(0));
    assert_eq!(report.storage_node_count, Some(0));
    assert_eq!(report.pools, Some(Pools::default()));
    assert_eq!(report.volumes, Some(Volumes::default()));
    assert_eq!(report.replicas, Some(Replicas::default()));
}

#[test]
fn assemble_report_stores_the_given_digest() {
    let report = assemble_report(Some(7), Some("digest".to_string()), everything());
    assert_eq!(report.k8s_cluster_id.as_deref(), Some("digest"));
    assert_eq!(report.k8s_node_count, Some(7));
    assert_eq!(report.storage_node_count, Some(2));
    assert_eq!(report.pools, Some(expected_pools()));
}
