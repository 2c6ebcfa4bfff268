//! Construction materials and their global-warming potential: the requests to
//! the EC3 service and what its answers hold, the local store that keeps
//! them, the job that fills the store, and the state of the program that
//! shows them.
//!
//! Numbers are held by the bit patterns of their doubles and never computed
//! with. What the library has from outside (the parse of a number, JSON, the
//! database) it has through a few functions whose contracts are taken on
//! trust; each says so.

pub mod api;
pub mod decode;
pub mod jobs;
pub mod json;
pub mod material_db;
pub mod material_filter;
pub mod models;
pub mod names;
pub mod number;
pub mod order;
pub mod project;
pub mod rows;
pub mod settings;
pub mod sort;
pub mod state;
pub mod text;
pub mod tree;
pub mod units;
