//! The closed set of hosting providers and the listing endpoint each one
//! exposes for an account's repositories.

use vstd::prelude::*;
use vstd::string::{StrSliceExecFns, StringExecFns};

use crate::text::str_eq;
use crate::validate::ValidationError;

verus! {

/// The supported hosting providers.
#[derive(Clone, Copy, Debug, PartialEq, Eq, Structural)]
pub enum Provider {
    Github,
    Gitlab,
}

/// The provider a label selects, if any.
pub open spec fn spec_provider_of(label: Seq<char>) -> Option<Provider> {
    if label == "github"@ {
        Option::Some(Provider::Github)
    } else if label == "gitlab"@ {
        Option::Some(Provider::Gitlab)
    } else {
        Option::None
    }
}

/// Resolves a provider label, rejecting everything outside the closed set.
/// This runs before any network call is made.
pub fn parse_provider(label: &str) -> (r: Result<Provider, ValidationError>)
    ensures
        r matches Ok(p) ==> spec_provider_of(label@) == Some(p),
        r is Ok <==> spec_provider_of(label@) is Some,
        r is Err ==> r == Err::<Provider, ValidationError>(ValidationError::InvalidProvider),
{
    if str_eq(label, "github") {
        Ok(Provider::Github)
    } else if str_eq(label, "gitlab") {
        Ok(Provider::Gitlab)
    } else {
        Err(ValidationError::InvalidProvider)
    }
}

/// The listing endpoint for one account, paged at a size generous enough to
/// take a typical account in one request.
pub open spec fn spec_api_url(p: Provider, username: Seq<char>) -> Seq<char> {
    match p {
        Provider::Github => "https://api.github.com/users/"@ + username + "/repos?per_page=1000"@,
        Provider::Gitlab => "https://gitlab.com/api/v4/users/"@ + username
            + "/projects?per_page=1000"@,
    }
}

/// Builds the listing endpoint for one account.
pub fn api_url(p: Provider, username: &str) -> (r: String)
    ensures
        r@ == spec_api_url(p, username@),
{
    match p {
        Provider::Github => {
            let mut s = "https://api.github.com/users/".to_owned();
            s.append(username);
            s.append("/repos?per_page=1000");
            proof {
                assert(s@ =~= spec_api_url(p, username@));
            }
            s
        },
        Provider::Gitlab => {
            let mut s = "https://gitlab.com/api/v4/users/".to_owned();
            s.append(username);
            s.append("/projects?per_page=1000");
            proof {
                assert(s@ =~= spec_api_url(p, username@));
            }
            s
        },
    }
}

} // verus!
