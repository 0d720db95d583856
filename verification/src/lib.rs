//! An image-delivery proxy core: cache-key construction, content
//! negotiation, a fixed-capacity variant cache, the conditional
//! thumbnail/transform pipeline, and the per-request cache-aside
//! orchestration, with the remote gateway's network calls and the HTTP
//! server kept at the edge.

pub mod cache;
pub mod config;
pub mod errors;
pub mod orchestrator;
pub mod remote;
pub mod transform;
