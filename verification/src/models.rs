//! Request and response data for the service's management APIs.
//!
//! These are plain records: the protocol logic that is worth stating
//! contracts over lives in the decoder, the error taxonomy, the
//! planner and the coordinator.

use vstd::prelude::*;

verus! {

/// Vector deletion request.
#[derive(Debug, Clone, PartialEq)]
pub struct DeleteRequest {
    pub id: u32,
}

/// Collection creation request.
#[derive(Debug, Clone, PartialEq)]
pub struct CreateCollectionRequest {
    pub dim: usize,
    pub max_size: u32,
}

/// Collection information.
#[derive(Debug, Clone, PartialEq)]
pub struct CollectionInfo {
    pub name: String,
    pub dimension: usize,
    pub mutable: bool,
    pub has_index: bool,
    pub max_size: u32,
    /// Current number of vectors in the collection.
    pub size: usize,
    pub index: Option<IndexInfo>,
}

/// Index information.
#[derive(Debug, Clone, PartialEq)]
pub struct IndexInfo {
    /// HNSW index configuration (if present).
    pub hnsw: Option<HNSWIndexConfig>,
    /// Whether normalization is applied for this index.
    pub normalization: bool,
}

/// Index creation request for HNSW.
#[derive(Debug, Clone, PartialEq)]
pub struct CreateHNSWIndexRequest {
    /// HNSW index configuration.
    pub hnsw: HNSWIndexConfig,
    /// Whether to apply vector normalization.
    pub normalization: Option<bool>,
}

/// HNSW index configuration.
#[derive(Debug, Clone, PartialEq)]
pub struct HNSWIndexConfig {
    /// Distance metric, e.g. "inner-product".
    pub metric: String,
    /// Quantization type, e.g. "f32" or "pq8".
    pub quantization: String,
    /// Number of bi-directional links created for every new element.
    pub m: usize,
    /// Number of outgoing connections in the zero layer.
    pub m0: usize,
    /// Controls index search speed/build speed tradeoff.
    pub ef_construction: usize,
    /// Optional PQ name when using product quantization.
    pub pq_name: Option<String>,
}

/// Collections list response.
#[derive(Debug, Clone, PartialEq)]
pub struct CollectionsListResponse {
    pub collections: Vec<CollectionInfo>,
}

/// Matrix information.
#[derive(Debug, Clone, PartialEq)]
pub struct MatrixInfo {
    pub name: String,
    pub dim: usize,
    pub len: usize,
    pub enabled: bool,
}

/// Result of a streamed matrix upload; constructed only from the
/// remote endpoint's aggregate acknowledgment, never partially
/// populated.
#[derive(Debug, Clone, PartialEq)]
pub struct UploadMatrixResult {
    pub success: bool,
    pub message: String,
    pub total_vectors: u32,
    pub total_chunks: u32,
}

/// Create PQ request.
#[derive(Debug, Clone, PartialEq)]
pub struct CreatePqRequest {
    pub dim: usize,
    pub codebooks: Vec<String>,
}

/// PQ info.
#[derive(Debug, Clone, PartialEq)]
pub struct PqInfo {
    pub name: String,
    pub dim: usize,
    pub codebooks: Vec<String>,
    pub enabled: bool,
}

} // verus!
