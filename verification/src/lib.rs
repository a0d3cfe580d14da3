//! A synthetic, in-memory table for exercising a SQL engine's scan machinery.
//!
//! The table has a fixed two-column schema (`id: UInt32`, `random_str: Utf8`)
//! and always materializes exactly three chunks of 1000 rows each, with `id`
//! running contiguously from 0 to 2999 and `random_str` constantly `"test"`.
//! Filters and limits handed to a scan are accepted but never applied; the
//! provider declares every filter as unsupported so the engine re-applies it.

pub mod arrow_api;
pub mod builder;
pub mod laws;
pub mod model;
pub mod plan_api;
pub mod provider;

pub use model::ColumnType;
pub use model::FieldDef;
pub use model::TableSchema;
pub use builder::InfoSchemaTestingDatasetProviderBuilder;
pub use provider::EngineError;
pub use provider::FilterPushdown;
pub use provider::InfoSchemaTestingDatasetProvider;
pub use provider::TableKind;
