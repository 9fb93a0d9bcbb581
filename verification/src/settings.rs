use vstd::prelude::*;

verus! {

/// Batch size used when a `tokens` section is given without a `batch` value.
pub open spec fn spec_default_batch_size() -> u64 {
    50
}

/// The batch size a token indexer falls back to when its settings name none.
pub fn default_batch_size() -> (r: u64)
    ensures
        r == spec_default_batch_size(),
{
    50
}

/// Settings of the token-metadata indexer.
#[derive(Debug, Clone, PartialEq, Eq, Structural)]
pub struct TokenIndexerSettings {
    /// How many uncatalogued tokens one run of the job takes on.
    pub batch: u64,
}

/// Settings of all indexers.
#[derive(Debug, Clone, PartialEq, Eq, Structural)]
pub struct IndexersSettings {
    pub tokens: TokenIndexerSettings,
}

impl Default for TokenIndexerSettings {
    /// The zero value of the settings: a batch size of 0.
    fn default() -> (r: Self)
        ensures
            r.batch == 0,
    {
        TokenIndexerSettings { batch: 0 }
    }
}

impl Default for IndexersSettings {
    /// Settings whose token indexer takes the zero value.
    fn default() -> (r: Self)
        ensures
            r.tokens.batch == 0,
    {
        IndexersSettings { tokens: TokenIndexerSettings::default() }
    }
}

/// Where the chain's JSON-RPC endpoint is.
#[derive(Debug, Clone, PartialEq, Eq)]
pub struct RpcSettings {
    pub url: String,
}

} // verus!
