//! Storage of hierarchically named resources: each resource is a directory
//! under a namespace path, holding a `metadata.json` document.
pub mod ident;
pub mod json;
pub mod kinds;
pub mod path;
pub mod resource;
