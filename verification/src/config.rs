//! Operator configuration as the catalog subsystem consumes it, and the
//! config-driven choice between the two upstream retrieval strategies.

use vstd::prelude::*;
use crate::records::{CatalogError, CatalogErrorView, CustomModelEntry, OverrideEntry};

verus! {

/// The slice of the operator's configuration snapshot that catalog
/// resolution reads. Absent booleans default to `false` at the point of use.
#[derive(Clone, Debug)]
pub struct CatalogConfig {
    /// Whether the merge rules are administratively enabled.
    pub merge_enabled: Option<bool>,
    /// Whether to use the token-authenticated listing call.
    pub use_v1_api: Option<bool>,
    /// Credential for the token-authenticated listing call.
    pub api_token: Option<String>,
    /// Per-model enable/rename rules, keyed by model id.
    pub overrides: Vec<OverrideEntry>,
    /// Operator-declared models to inject into the merged catalog.
    pub custom_models: Vec<CustomModelEntry>,
    /// Minimum spacing between gated outbound calls, in milliseconds.
    pub min_interval_ms: u64,
}

/// The retrieval strategy, resolved once from configuration: either the
/// token-authenticated listing call or the unauthenticated legacy one.
#[derive(Clone, Debug, PartialEq, Eq)]
pub enum FetchMode {
    TokenListing(String),
    LegacyListing,
}

/// Mathematical value of a `FetchMode`.
pub enum FetchModeView {
    TokenListing(Seq<char>),
    LegacyListing,
}

impl View for FetchMode {
    type V = FetchModeView;

    open spec fn view(&self) -> FetchModeView {
        match self {
            FetchMode::TokenListing(t) => FetchModeView::TokenListing(t@),
            FetchMode::LegacyListing => FetchModeView::LegacyListing,
        }
    }
}

impl DeepView for FetchMode {
    type V = FetchModeView;

    open spec fn deep_view(&self) -> FetchModeView {
        self@
    }
}

/// The strategy a configuration calls for: token-based listing exactly when
/// `use_v1_api` is set and true, which then demands a credential.
pub open spec fn spec_resolve_fetch_mode(
    use_v1_api: Option<bool>,
    api_token: Option<Seq<char>>,
) -> Result<FetchModeView, CatalogErrorView> {
    if use_v1_api == Some(true) {
        match api_token {
            Some(t) => Ok(FetchModeView::TokenListing(t)),
            None => Err(CatalogErrorView::MissingCredential),
        }
    } else {
        Ok(FetchModeView::LegacyListing)
    }
}

/// Resolve the retrieval strategy from configuration. Requesting token-based
/// listing without a credential is a configuration error, never retried; in
/// every other case a strategy is returned.
pub fn resolve_fetch_mode(config: &CatalogConfig) -> (r: Result<FetchMode, CatalogError>)
    ensures
        crate::records::result_dv(r) == spec_resolve_fetch_mode(
            config.use_v1_api,
            config.api_token.deep_view(),
        ),
{
    let use_v1 = match config.use_v1_api {
        Some(b) => b,
        None => false,
    };
    if use_v1 {
        match &config.api_token {
            Some(token) => Ok(FetchMode::TokenListing(token.clone())),
            None => Err(CatalogError::MissingCredential),
        }
    } else {
        Ok(FetchMode::LegacyListing)
    }
}

/// Whether the merge rules apply: only when the operator set the flag to
/// true; an absent flag means disabled.
pub fn merge_rules_enabled(flag: Option<bool>) -> (b: bool)
    ensures
        b == (flag == Some(true)),
{
    match flag {
        Some(x) => x,
        None => false,
    }
}

} // verus!
