//! A thin convenience layer over a cloud provider's service SDKs.
//!
//! The library holds the logic of the layer: the paginated full-table scan
//! bookkeeping, the construction of task-launch requests, the extraction of
//! override environments from task descriptions, and the decoding of
//! function-invocation results. The network round trips themselves are made
//! by the callers, which feed each response back into these types.

pub mod dynamodb;
pub mod ecs;
pub mod errors;
pub mod lambda;
