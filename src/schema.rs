//! The fixed relations of a store and the vector index over its embeddings.
use vstd::prelude::*;

verus! {

/// The five relations of a store: entities, the typed edges between them,
/// tags, the tags of each entity, and one 768-component embedding per entity.
/// Each declaration is a query block of its own, so that all five run, in
/// one transaction.
pub const SCHEMA: &'static str = "
{:create entity {
    id: String,
    =>
    kind: String,
    title: String,
    authors: String,
    uri: String?,
    year: Int?,
    props: Json?
}}

{:create edge {
    src: String,
    dst: String,
    kind: String,
    =>
    props: Json?
}}

{:create tag {
    name: String,
}}

{:create entity_tag {
    entity_id: String,
    tag_name: String,
    =>
}}

{:create entity_vec {
    entity_id: String,
    =>
    embedding: <F32; 768>
}}
";

/// The HNSW index over the embeddings: 768 dimensions, Euclidean distance,
/// 32 neighbours per node, a candidate list of 20 while building, filtering
/// allowed, neither candidate extension nor kept pruned connections.
pub const HNSW_INDEX: &'static str = "
::hnsw create entity_vec:entity_vec_hnsw {
    dim: 768,
    m: 32,
    dtype: F32,
    fields: [embedding],
    distance: L2,
    ef_construction: 20,
    filter: true,
    extend_candidates: false,
    keep_pruned_connections: false,
}
";

} // verus!
