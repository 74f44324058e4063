pub mod cluster;
pub mod cluster_laws;
pub mod copies;
pub mod laws;
pub mod maps;
pub mod node;
pub mod node_laws;
pub mod snapshots;
