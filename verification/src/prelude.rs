//! Convenience re-exports of the items an extension's `src/lib.rs` most
//! often needs.
//!
//! | Item | From |
//! |------|------|
//! | [`AbiPolicy`] / [`AbiCheck`] | `abi` module |
//! | [`AbiVerdict`] / [`policy_verdict`] | `entry_point` module |
//! | [`CastMode`] | `cast` module |
//! | [`ConfigOptionScope`] | `config_option` module |
//! | [`DuckInterval`] / [`interval_to_micros`] | `interval` module |
//! | [`Date`] / [`Time`] / [`TimeTz`] / [`Timestamp`] / [`Decimal`] | `datetime` module |
//! | [`ResultKind`] | `query` module |
//! | [`ExtensionError`] / [`ExtResult`] | `error` module |
//! | [`DuckDbErrorType`] | `error_data` module |
//! | [`FileFlag`] | `file_system` module |
//! | [`DUCKDB_API_VERSION`] | crate root |

pub use crate::abi::{AbiCheck, AbiPolicy};
pub use crate::cast::CastMode;
pub use crate::config_option::ConfigOptionScope;
pub use crate::datetime::{Date, Decimal, Time, TimeTz, Timestamp};
pub use crate::entry_point::{policy_verdict, AbiVerdict};
pub use crate::error::{ExtResult, ExtensionError};
pub use crate::error_data::DuckDbErrorType;
pub use crate::file_system::FileFlag;
pub use crate::interval::{interval_to_micros, DuckInterval};
pub use crate::query::ResultKind;
pub use crate::DUCKDB_API_VERSION;
