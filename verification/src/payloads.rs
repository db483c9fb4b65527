//! Plain data payloads exchanged with the host's protocol layer. Their wire
//! encoding and transport live entirely with the host; here they are bare
//! values.

use vstd::prelude::*;

verus! {

/// What a web deployment command answers: the URL the site was deployed
/// under.
#[derive(Clone, Debug, PartialEq, Eq)]
pub struct DeployReturns {
    pub url: String,
}

/// A hierarchical index naming one data attribute.
#[derive(Clone, Debug, PartialEq, Eq)]
pub struct DataIndex(pub Vec<u32>);

/// What the data-attribute info query answers: the indices the host ledger
/// tracks.
#[derive(Clone, Debug, PartialEq, Eq)]
pub struct DataInfoReturns {
    pub indices: Vec<DataIndex>,
}

} // verus!
