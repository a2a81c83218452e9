//! Enrichment of log events with the metadata of the Kubernetes pod that
//! produced them, kept in a single-writer, many-reader cache that a
//! reconnecting watch loop fills.

pub mod value;
pub mod pod;
pub mod fields;
pub mod store;
pub mod event;
pub mod transform;
pub mod reconcile;
pub mod tls;
