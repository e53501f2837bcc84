//! Verified core of the sovereign seL4 stack: capability graph, composite
//! identity, multi-node boot coordination and the protection-domain state
//! machines.
pub mod bytes;
pub mod common;
pub mod trustgraph;
pub mod soma;
pub mod multinode;
pub mod pds;
pub mod microkit;
