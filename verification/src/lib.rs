//! Aggregation of independently generated zero-knowledge proofs into one
//! succinct root proof, through a balanced binary recursion tree.
//!
//! Every leaf of the tree verifies one user proof and rebinds its public
//! inputs and circuit identity into a fixed two-digest layout; every interior
//! node verifies two homogeneous children and folds their digests.  The root
//! therefore attests that each user circuit accepted, and a separately
//! computed Merkle commitment over the raw user inputs cross-checks the
//! root's input digest.

pub mod backend;
pub mod digest;
pub mod errors;
pub mod hashing;
pub mod leaf_circuit;
pub mod leaf_proof;
pub mod node_circuit;
pub mod node_proof;
pub mod proof_data;
pub mod service;
pub mod trace_backend;
pub mod tree_proof;
pub mod user_proof;
pub mod utils;
pub mod zktree;
