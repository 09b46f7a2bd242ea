//! Typed statement and query engine for the Oracle call interface: buffer
//! layouts, value codecs, parameter projection and the batched row cursor.

pub mod application;
pub mod config;
pub mod datasource;
pub mod dynamic;
pub mod error;
pub mod implementors;
pub mod memory;
pub mod metainfo;
pub mod params;
pub mod results;
pub mod rows;
pub mod security;
pub mod statement;
pub mod text;
pub mod types;
pub mod utils;
pub mod values;

pub use error::{OracleError, OracleResult};
