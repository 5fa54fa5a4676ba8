//! A pluggable validation host: data records run through a pipeline of
//! rule modules that may accept, reject, or transform them, with each
//! module able to delegate to the next stage in the chain.
//!
//! The crate is organised leaf-first:
//! - `model`: the record type shared by host and rule modules;
//! - `interface`: the closed error contract of the pipeline;
//! - `resource_table`: handle-based access to host-owned resources;
//! - `host`: the capability surface (logging) offered to rule modules;
//! - `engine`: the rule modules themselves and their chaining semantics;
//! - `loader`: normalisation of module instantiation and execution outcomes;
//! - `configuration`: the settings that gate the pipeline;
//! - `validation`: the facade deciding whether the pipeline runs at all;
//! - `store`: the in-memory product store kept between requests;
//! - `data`: the built-in product catalog.

pub mod configuration;
pub mod data;
pub mod engine;
pub mod host;
pub mod interface;
pub mod loader;
pub mod model;
pub mod resource_table;
pub mod store;
pub mod validation;

pub use interface::Error;
pub use model::Product;
pub use model::ProductInfo;
