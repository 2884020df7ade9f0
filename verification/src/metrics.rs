//! Extraction of samples from raw records: one value per record, in the
//! order of the listing, with nothing left out and nothing checked.

use vstd::prelude::*;
use crate::api_models::{PoolsApi, VolumeStats};

verus! {

/// The declared size in bytes of each volume.
pub open spec fn volume_sizes(volumes: Seq<VolumeStats>) -> Seq<u64> {
    Seq::new(volumes.len(), |i: int| volumes[i].spec.size)
}

/// The declared replica count of each volume.
pub open spec fn volume_replica_counts(volumes: Seq<VolumeStats>) -> Seq<u64> {
    Seq::new(volumes.len(), |i: int| volumes[i].spec.num_replicas)
}

/// The capacity of each pool.
pub open spec fn pool_capacities(pools: Seq<PoolsApi>) -> Seq<u64> {
    Seq::new(pools.len(), |i: int| pools[i].state.capacity)
}

/// Collects the declared size in bytes of each volume.
pub fn convert_volumes_into_volumes_size_vector(volumes: Vec<VolumeStats>) -> (sizes: Vec<u64>)
    ensures
        sizes@ == volume_sizes(volumes@),
{
    let mut volume_size_vector: Vec<u64> = Vec::new();
    let mut i: usize = 0;
    while i < volumes.len()
        invariant
            i <= volumes.len(),
            volume_size_vector@ == volume_sizes(volumes@.take(i as int)),
        decreases volumes.len() - i,
    {
        volume_size_vector.push(volumes[i].spec.size);
        i += 1;
    }
    volume_size_vector
}

/// Collects the declared replica count of each volume.
pub fn convert_volumes_into_replicas_size_vector(volumes: Vec<VolumeStats>) -> (counts: Vec<u64>)
    ensures
        counts@ == volume_replica_counts(volumes@),
{
    let mut replicas_size_vector: Vec<u64> = Vec::new();
    let mut i: usize = 0;
    while i < volumes.len()
        invariant
            i <= volumes.len(),
            replicas_size_vector@ == volume_replica_counts(volumes@.take(i as int)),
        decreases volumes.len() - i,
    {
        replicas_size_vector.push(volumes[i].spec.num_replicas);
        i += 1;
    }
    replicas_size_vector
}

/// Collects the capacity of each pool.
pub fn convert_pools_into_pools_size_vector(pools: Vec<PoolsApi>) -> (capacities: Vec<u64>)
    ensures
        capacities@ == pool_capacities(pools@),
{
    let mut pools_size_vector: Vec<u64> = Vec::new();
    let mut i: usize = 0;
    while i < pools.len()
        invariant
            i <= pools.len(),
            pools_size_vector@ == pool_capacities(pools@.take(i as int)),
        decreases pools.len() - i,
    {
        pools_size_vector.push(pools[i].state.capacity);
        i += 1;
    }
    pools_size_vector
}

} // verus!
