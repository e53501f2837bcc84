//! SOMA identity: composite hardware identity, three-key threshold and the
//! binding of every outgoing packet to the node's composite hash.
pub mod composite;
pub mod threshold;
pub mod binding;
pub mod engine;
