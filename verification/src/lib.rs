//! A model of a multi-package build workspace, assembled from the records
//! that the external build-manifest tool reports: packages with their
//! buildable targets, the resolved dependency graph, and optional
//! build-script telemetry folded in by package identifier.

pub mod builder;
pub mod edition;
pub mod extern_resources;
pub mod laws;
pub mod meta;
pub mod paths;
pub mod strutil;
pub mod workspace;
