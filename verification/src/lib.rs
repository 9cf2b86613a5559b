//! Client-side verifier for key-history proofs of an auditable key
//! directory: an append-only, verifiable map from opaque user labels to a
//! versioned sequence of committed values, anchored by a Merkle-tree root
//! per epoch.  The crate also carries the binary node-label representation
//! used by the directory's history tree.

pub mod configuration;
pub mod history;
pub mod node_state;
pub mod types;
pub mod utils;
