//! A block-height-gated migration framework for a replicated, deterministic
//! state machine.
//!
//! A *migration* is a named unit of behavioral or storage-format change that
//! activates at a fixed block height. Every node of a replicated ledger runs
//! the same registry of migration descriptors and loads the same declarative
//! configuration, so all nodes apply the same changes at exactly the same
//! height. Regular migrations run a one-time `initialize` hook at their
//! activation height and a recurring `update` hook afterwards; hotfix
//! migrations transform raw bytes at exactly their activation height.

pub mod config;
pub mod descriptor;
pub mod instance;
pub mod laws;
pub mod metadata;
pub mod payloads;
pub mod set;

pub use config::{MigrationConfig, SingleMigrationConfig};
pub use descriptor::{
    HotfixMigration, InnerMigration, MigrationHooks, MigrationType, RegularMigration,
};
pub use instance::Migration;
pub use metadata::Metadata;
pub use set::{load_enable_all_regular_migrations, MigrationSet};
