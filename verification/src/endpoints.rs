//! Service endpoints by region.

use vstd::prelude::*;
use crate::text::{owned, push_str};

verus! {

/// The assistant service endpoint for `region`: Frankfurt for
/// `eu-central-1`, otherwise North Virginia.
pub open spec fn spec_endpoint(region: Seq<char>) -> Seq<char> {
    if region == "eu-central-1"@ {
        "https://q.eu-central-1.amazonaws.com"@
    } else {
        "https://q.us-east-1.amazonaws.com"@
    }
}

/// The assistant service endpoint for `region`.
pub fn get_endpoint(region: &str) -> (r: &'static str)
    ensures
        r@ == spec_endpoint(region@),
{
    let region = owned(region);
    if region == owned("eu-central-1") {
        "https://q.eu-central-1.amazonaws.com"
    } else {
        "https://q.us-east-1.amazonaws.com"
    }
}

/// The sign-in (OIDC) endpoint for `region`.
pub open spec fn spec_oidc_endpoint(region: Seq<char>) -> Seq<char> {
    "https://oidc."@ + region + ".amazonaws.com"@
}

/// The sign-in (OIDC) endpoint for `region`.
pub fn get_oidc_endpoint(region: &str) -> (r: String)
    ensures
        r@ == spec_oidc_endpoint(region@),
{
    let mut r = owned("https://oidc.");
    push_str(&mut r, region);
    push_str(&mut r, ".amazonaws.com");
    r
}

/// Each of the two regions the service runs in is served at its own
/// address, named after it (`https://q.<region>.amazonaws.com`); every
/// other region is served from North Virginia.
pub proof fn law_service_regions(region: Seq<char>)
    ensures
        (region == "us-east-1"@ || region == "eu-central-1"@) ==> spec_endpoint(region) == "https://q."@ + region
            + ".amazonaws.com"@,
        !(region == "us-east-1"@ || region == "eu-central-1"@) ==> spec_endpoint(region) == spec_endpoint(
            "us-east-1"@,
        ),
{
    reveal_strlit("us-east-1");
    reveal_strlit("eu-central-1");
    reveal_strlit("https://q.");
    reveal_strlit(".amazonaws.com");
    reveal_strlit("https://q.us-east-1.amazonaws.com");
    reveal_strlit("https://q.eu-central-1.amazonaws.com");
    assert("us-east-1"@.len() != "eu-central-1"@.len());
    assert("https://q.us-east-1.amazonaws.com"@ =~= "https://q."@ + "us-east-1"@ + ".amazonaws.com"@);
    assert("https://q.eu-central-1.amazonaws.com"@ =~= "https://q."@ + "eu-central-1"@ + ".amazonaws.com"@);
}

} // verus!
