//! Records as the storage control plane reports them, already decoded.

use vstd::prelude::*;

verus! {

/// The volume listing.
#[derive(Debug)]
pub struct VolumesApi {
    pub entries: Vec<VolumeStats>,
}

/// One volume of the listing.
#[derive(Debug, Clone, Copy)]
pub struct VolumeStats {
    pub spec: VolumeSpec,
}

/// What was asked of a volume when it was created.
#[derive(Debug, Clone, Copy)]
pub struct VolumeSpec {
    /// The number of replicas the volume is to keep.
    pub num_replicas: u64,
    /// The size of the volume in bytes.
    pub size: u64,
}

/// One storage pool.
#[derive(Debug)]
pub struct PoolsApi {
    pub state: PoolsState,
}

/// The observed state of a storage pool.
#[derive(Debug)]
pub struct PoolsState {
    /// The capacity of the pool in bytes.
    pub capacity: u64,
}

/// One storage node.
#[derive(Debug)]
pub struct NodesApi {
    pub id: String,
}

/// One replica, with the node that holds it.
#[derive(Debug)]
pub struct ReplicasApi {
    pub node: String,
}

impl Clone for VolumesApi {
    fn clone(&self) -> (copy: Self)
        ensures
            copy.entries@ == self.entries@,
    {
        VolumesApi { entries: self.entries.clone() }
    }
}

} // verus!
