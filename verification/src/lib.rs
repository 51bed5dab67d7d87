//! Verified core of a toolkit for building `DuckDB` loadable extensions in Rust.

pub mod abi;
pub mod cast;
pub mod catalog;
pub mod config_option;
pub mod copy_function;
pub mod datetime;
pub mod debug_repr;
pub mod entry_point;
pub mod error;
pub mod error_data;
pub mod expression;
pub mod file_system;
pub mod interval;
pub mod prelude;
pub mod query;
pub mod replacement_scan;
pub mod scaffold;
pub mod text;
pub mod validate;

use vstd::prelude::*;

verus! {

/// The `DuckDB` C extension API version that every release from v1.4.x
/// through v1.5.x implements.
pub const DUCKDB_API_VERSION: &'static str = "v1.2.0";

} // verus!
