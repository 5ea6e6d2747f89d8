//! The JSON documents the launcher reads: version manifests, the version
//! list, asset indexes and Java runtime manifests.
pub mod version;
pub mod main;
pub mod assets;
pub mod java;
pub mod java_versions;
