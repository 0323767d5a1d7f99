//! Listing the models the service offers.

use vstd::prelude::*;
use crate::text::{owned, push_str};
use crate::endpoints::{get_endpoint, spec_endpoint};

verus! {

/// The target of the model-listing operation.
pub const LIST_MODELS_TARGET: &'static str = "AmazonCodeWhispererService.ListAvailableModels";

/// A request to list the available models.
#[derive(Debug)]
pub struct ListModelsRequest {
    pub origin: String,
}

impl Default for ListModelsRequest {
    /// A request from the command-line client origin.
    fn default() -> (r: Self)
        ensures
            r.origin@ == "KIRO_CLI"@,
    {
        ListModelsRequest { origin: owned("KIRO_CLI") }
    }
}

/// Token limits of a model.
#[derive(Debug, Clone, PartialEq, Eq, Structural)]
pub struct TokenLimits {
    pub max_input_tokens: Option<u64>,
}

impl Default for TokenLimits {
    /// No limit known.
    fn default() -> (r: Self)
        ensures
            r.max_input_tokens is None,
    {
        TokenLimits { max_input_tokens: None }
    }
}

/// Where the model list of `region` is asked for.
pub open spec fn spec_list_models_url(region: Seq<char>) -> Seq<char> {
    spec_endpoint(region) + "?origin=KIRO_CLI"@
}

/// Where the model list of `region` is asked for.
pub fn list_models_url(region: &str) -> (r: String)
    ensures
        r@ == spec_list_models_url(region@),
{
    let mut r = owned(get_endpoint(region));
    push_str(&mut r, "?origin=KIRO_CLI");
    r
}

} // verus!
