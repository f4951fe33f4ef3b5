//! Aggregation of the metrics of many containers on one host.
//!
//! Each container exposes its metrics text on its own loopback interface only.
//! This library holds the rules by which one response is made of them: which
//! command fetches a container's metrics, which outcomes of that command count,
//! how each line is stamped with the container's name, and how the stamped
//! lines are joined.

pub mod text;
pub mod relabel;
pub mod container;
pub mod scrape;
pub mod exporter;
pub mod pipeline;
