//! The report of one polling cycle and the summaries it carries.

use vstd::prelude::*;
use crate::api_models::{PoolsApi, VolumeStats, VolumesApi};
use crate::metrics::{
    convert_pools_into_pools_size_vector, convert_volumes_into_replicas_size_vector,
    convert_volumes_into_volumes_size_vector, pool_capacities, volume_replica_counts, volume_sizes,
};
use crate::summary::{summarize, Percentiles, Summary};

verus! {

/// The summary of the sizes of all volumes.
#[derive(Debug, Clone, Copy, PartialEq, Eq, Structural)]
pub struct Volumes {
    pub count: u64,
    pub max_size_in_bytes: u64,
    pub min_size_in_bytes: u64,
    pub capacity_percentiles_in_bytes: Percentiles,
}

impl Volumes {
    /// A summary of a sample, as a summary of volume sizes.
    pub open spec fn from_summary(summary: Summary) -> Volumes {
        Volumes {
            count: summary.count,
            max_size_in_bytes: summary.max,
            min_size_in_bytes: summary.min,
            capacity_percentiles_in_bytes: summary.percentiles,
        }
    }

    /// The summary of the declared sizes of the volumes of a listing.
    pub open spec fn of_entries(entries: Seq<VolumeStats>) -> Volumes {
        Volumes::from_summary(Summary::of_sample(volume_sizes(entries)))
    }

    /// The summary of no volumes: every field is zero.
    pub fn default() -> (volumes: Self)
        ensures
            volumes == Volumes::from_summary(Summary::zero()),
    {
        Self {
            count: 0,
            min_size_in_bytes: 0,
            max_size_in_bytes: 0,
            capacity_percentiles_in_bytes: Percentiles::default(),
        }
    }

    /// Summarizes the declared sizes of the volumes of a listing.
    pub fn new(volume_entries: VolumesApi) -> (volumes: Self)
        ensures
            volumes == Volumes::of_entries(volume_entries.entries@),
    {
        let volumes_size_vector = convert_volumes_into_volumes_size_vector(volume_entries.entries);
        let summary = summarize(volumes_size_vector);
        Self {
            count: summary.count,
            max_size_in_bytes: summary.max,
            min_size_in_bytes: summary.min,
            capacity_percentiles_in_bytes: summary.percentiles,
        }
    }
}

/// The summary of the capacities of all pools.
#[derive(Debug, Clone, Copy, PartialEq, Eq, Structural)]
pub struct Pools {
    pub count: u64,
    pub max_size_in_bytes: u64,
    pub min_size_in_bytes: u64,
    pub capacity_percentiles_in_bytes: Percentiles,
}

impl Pools {
    /// A summary of a sample, as a summary of pool capacities.
    pub open spec fn from_summary(summary: Summary) -> Pools {
        Pools {
            count: summary.count,
            max_size_in_bytes: summary.max,
            min_size_in_bytes: summary.min,
            capacity_percentiles_in_bytes: summary.percentiles,
        }
    }

    /// The summary of the capacities of the pools of a listing.
    pub open spec fn of_pools(pools: Seq<PoolsApi>) -> Pools {
        Pools::from_summary(Summary::of_sample(pool_capacities(pools)))
    }

    /// The summary of no pools: every field is zero.
    pub fn default() -> (pools: Self)
        ensures
            pools == Pools::from_summary(Summary::zero()),
    {
        Self {
            count: 0,
            max_size_in_bytes: 0,
            min_size_in_bytes: 0,
            capacity_percentiles_in_bytes: Percentiles::default(),
        }
    }

    /// Summarizes the capacities of the pools of a listing.
    pub fn new(pools: Vec<PoolsApi>) -> (summary: Self)
        ensures
            summary == Pools::of_pools(pools@),
    {
        let pools_size_vector = convert_pools_into_pools_size_vector(pools);
        let summary = summarize(pools_size_vector);
        Self {
            count: summary.count,
            max_size_in_bytes: summary.max,
            min_size_in_bytes: summary.min,
            capacity_percentiles_in_bytes: summary.percentiles,
        }
    }
}

/// The number of replicas, and how many replicas a volume is to keep.
///
/// The two come from different listings and need not agree: the count is
/// that of the replica listing, the percentiles are those of the volume
/// listing.
#[derive(Debug, Clone, Copy, PartialEq, Eq, Structural)]
pub struct Replicas {
    pub count: u64,
    pub count_per_volume_percentiles: Percentiles,
}

impl Replicas {
    /// The percentiles of the replica counts of a volume listing: zero where
    /// the listing is absent or empty.
    pub open spec fn percentiles_of(volumes: Option<VolumesApi>) -> Percentiles {
        match volumes {
            Some(volumes) if volumes.entries@.len() > 0 => Percentiles::of_sample(
                volume_replica_counts(volumes.entries@),
            ),
            _ => Percentiles::zero(),
        }
    }

    /// The replica count as given, beside the percentiles of the replica
    /// counts of a volume listing.
    pub open spec fn of(replica_count: usize, volumes: Option<VolumesApi>) -> Replicas {
        Replicas {
            count: replica_count as u64,
            count_per_volume_percentiles: Replicas::percentiles_of(volumes),
        }
    }

    /// No replicas and no volumes: every field is zero.
    pub fn default() -> (replicas: Self)
        ensures
            replicas == (Replicas { count: 0, count_per_volume_percentiles: Percentiles::zero() }),
    {
        Self { count: 0, count_per_volume_percentiles: Percentiles::default() }
    }

    /// The replica count as given, beside the percentiles of the replica
    /// counts that the volumes declare.
    pub fn new(replica_count: usize, volumes: Option<VolumesApi>) -> (replicas: Self)
        ensures
            replicas == Replicas::of(replica_count, volumes),
            replicas.count_per_volume_percentiles.is_ordered(),
    {
        let mut replicas = Self::default();
        match volumes {
            Some(volumes) => {
                let replicas_size_vector = convert_volumes_into_replicas_size_vector(
                    volumes.entries,
                );
                if replicas_size_vector.len() > 0 {
                    replicas.count_per_volume_percentiles = Percentiles::new(replicas_size_vector);
                } else {
                    replicas.count_per_volume_percentiles = Percentiles::default();
                }
            },
            None => {},
        };
        replicas.count = replica_count as u64;
        replicas
    }
}

/// The versions of the components that were observed.
#[derive(Debug)]
pub struct Versions {
    pub control_plane_version: String,
}

/// What a `Versions` value holds.
pub struct VersionsView {
    pub control_plane_version: Seq<char>,
}

impl View for Versions {
    type V = VersionsView;

    open spec fn view(&self) -> VersionsView {
        VersionsView { control_plane_version: self.control_plane_version@ }
    }
}

impl Versions {
    /// No version known: the empty string.
    pub fn new() -> (versions: Self)
        ensures
            versions@.control_plane_version == Seq::<char>::empty(),
    {
        Self { control_plane_version: String::new() }
    }
}

/// What one polling cycle found out. A field is absent where its source
/// gave nothing.
#[derive(Debug)]
pub struct Report {
    pub k8s_cluster_id: Option<String>,
    pub k8s_node_count: Option<u64>,
    pub product_name: Option<String>,
    pub product_version: Option<String>,
    pub deploy_namespace: Option<String>,
    pub storage_node_count: Option<u64>,
    pub pools: Option<Pools>,
    pub volumes: Option<Volumes>,
    pub replicas: Option<Replicas>,
    pub versions: Option<Versions>,
}

/// What a `Report` holds, with each text as its sequence of characters.
pub struct ReportView {
    pub k8s_cluster_id: Option<Seq<char>>,
    pub k8s_node_count: Option<u64>,
    pub product_name: Option<Seq<char>>,
    pub product_version: Option<Seq<char>>,
    pub deploy_namespace: Option<Seq<char>>,
    pub storage_node_count: Option<u64>,
    pub pools: Option<Pools>,
    pub volumes: Option<Volumes>,
    pub replicas: Option<Replicas>,
    pub versions: Option<VersionsView>,
}

/// The characters of a text that may be absent.
pub open spec fn text_view(text: Option<String>) -> Option<Seq<char>> {
    match text {
        Some(text) => Some(text@),
        None => None,
    }
}

impl View for Report {
    type V = ReportView;

    open spec fn view(&self) -> ReportView {
        ReportView {
            k8s_cluster_id: text_view(self.k8s_cluster_id),
            k8s_node_count: self.k8s_node_count,
            product_name: text_view(self.product_name),
            product_version: text_view(self.product_version),
            deploy_namespace: text_view(self.deploy_namespace),
            storage_node_count: self.storage_node_count,
            pools: self.pools,
            volumes: self.volumes,
            replicas: self.replicas,
            versions: match self.versions {
                Some(versions) => Some(versions@),
                None => None,
            },
        }
    }
}

impl ReportView {
    /// The report in which every field is absent.
    pub open spec fn empty() -> ReportView {
        ReportView {
            k8s_cluster_id: None,
            k8s_node_count: None,
            product_name: None,
            product_version: None,
            deploy_namespace: None,
            storage_node_count: None,
            pools: None,
            volumes: None,
            replicas: None,
            versions: None,
        }
    }
}

impl Report {
    /// The report at the start of a polling cycle: every field is absent.
    pub fn new() -> (report: Self)
        ensures
            report@ == ReportView::empty(),
    {
        Self {
            k8s_cluster_id: None,
            k8s_node_count: None,
            product_name: None,
            product_version: None,
            deploy_namespace: None,
            storage_node_count: None,
            pools: None,
            volumes: None,
            replicas: None,
            versions: None,
        }
    }
}

/// Without a volume listing, or with an empty one, the replica summary
/// holds the replica count as given and zero percentiles.
pub proof fn lemma_replicas_without_volumes(replica_count: usize, volumes: Option<VolumesApi>)
    requires
        volumes matches Some(listing) ==> listing.entries@.len() == 0,
    ensures
        Replicas::of(replica_count, volumes) == (Replicas {
            count: replica_count as u64,
            count_per_volume_percentiles: Percentiles {
                percentile_50: 0,
                percentile_75: 0,
                percentile_90: 0,
            },
        }),
{
}

/// The replica count of a replica summary is the one given, whatever the
/// volume listing holds.
pub proof fn lemma_replica_count_independent(
    replica_count: usize,
    volumes: Option<VolumesApi>,
    other: Option<VolumesApi>,
)
    ensures
        Replicas::of(replica_count, volumes).count == replica_count,
        Replicas::of(replica_count, volumes).count == Replicas::of(replica_count, other).count,
{
}

} // verus!
