//! Per-deployment parameters of one migration.

use vstd::prelude::*;
use std::collections::HashMap;

verus! {

/// Declares serde_json's JSON value type so that the open parameter map of a
/// migration can carry arbitrary configuration values through to the
/// migration's own hooks. The framework itself never inspects these values.
#[verifier::external_type_specification]
#[verifier::external_body]
pub struct ExValue(serde_json::Value);

/// Deployment parameters for one migration: the block height at which it
/// activates, an administrative off switch, an optional issue reference, and
/// an open map of extra named parameters handed verbatim to the migration's
/// hooks.
#[derive(Debug, Clone)]
pub struct Metadata {
    /// The block height at which the migration becomes eligible to run.
    pub block_height: u64,

    /// When set, the migration is loaded disabled and none of its hooks run.
    pub disabled: bool,

    /// An optional reference to the issue that motivated the migration.
    pub issue: Option<String>,

    /// Extra named parameters, passed verbatim to the migration's hooks.
    pub extra: HashMap<String, serde_json::Value>,
}

impl Metadata {
    /// A metadata record for a migration enabled at the given height, with no
    /// issue reference and no extra parameters.
    pub fn enabled(block_height: u64) -> (r: Self)
        ensures
            r.block_height == block_height,
            !r.disabled,
            r.issue is None,
            r.extra@ == Map::<String, serde_json::Value>::empty(),
    {
        Metadata {
            block_height,
            disabled: false,
            issue: None,
            extra: HashMap::new(),
        }
    }

    /// A metadata record for a migration disabled at the given height, with no
    /// issue reference and no extra parameters.
    pub fn disabled(block_height: u64) -> (r: Self)
        ensures
            r.block_height == block_height,
            r.disabled,
            r.issue is None,
            r.extra@ == Map::<String, serde_json::Value>::empty(),
    {
        Metadata {
            block_height,
            disabled: true,
            issue: None,
            extra: HashMap::new(),
        }
    }
}

impl Default for Metadata {
    /// The default metadata: height zero, enabled, no issue, no extras.
    fn default() -> (r: Self)
        ensures
            r.block_height == 0,
            !r.disabled,
            r.issue is None,
            r.extra@ == Map::<String, serde_json::Value>::empty(),
    {
        Metadata::enabled(0)
    }
}

} // verus!
