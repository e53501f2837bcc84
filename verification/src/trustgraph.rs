//! The trust graph: a directed capability graph between protection domains,
//! the capability tokens it validates, and per-PD trust scores.
pub mod token;
pub mod trust_score;

pub mod graph;
