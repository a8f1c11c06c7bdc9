//! Reading a provider's listing response. The body is parsed by serde_json
//! and the name and clone-URL fields are read out of each entry, under the
//! provider's field names. What that parse yields is a function of the body
//! and the field keys alone, so it carries a name, `spec_listing_of`, and
//! the contract of `parse_listing` is stated through it: `None` exactly for
//! a body that is not a JSON array, else one pair of extracted fields per
//! entry, in listing order. Every entry then goes through the filter
//! `RemoteRepo::from_fields` before any action is taken on it.

use vstd::prelude::*;

use crate::model::{RepoFields, RepoFieldsModel};
use crate::provider::Provider;

verus! {

/// What parsing a listing body yields under the two field keys: `None` for
/// a body that is not a JSON array, else the name field (under `name_key`)
/// and the clone-URL field (under `url_key`) of each entry, in order, each
/// absent where the entry does not carry it as a string.
pub uninterp spec fn spec_listing_of(
    body: Seq<char>,
    name_key: Seq<char>,
    url_key: Seq<char>,
) -> Option<Seq<RepoFieldsModel>>;

/// Relies on serde_json::from_str::<Vec<Value>> to parse the body as a JSON
/// array, and on serde_json::Value::get and Value::as_str to read each
/// entry's string field under a key; the result depends on the body and the
/// keys alone.
#[verifier::external_body]
fn read_listing(body: &str, name_key: &str, url_key: &str) -> (r: Option<Vec<RepoFields>>)
    ensures
        r.deep_view() == spec_listing_of(body@, name_key@, url_key@),
{
    let values: Vec<serde_json::Value> = match serde_json::from_str(body) {
        Ok(v) => v,
        Err(_) => return None,
    };
    let mut out = Vec::new();
    for v in &values {
        let name = v.get(name_key).and_then(serde_json::Value::as_str).map(String::from);
        let url = v.get(url_key).and_then(serde_json::Value::as_str).map(String::from);
        out.push(RepoFields { name, url });
    }
    Some(out)
}

/// The field that holds a repository's clone URL, under the provider's name
/// for it.
fn url_key(provider: Provider) -> (r: &'static str)
    ensures
        r@ == spec_url_key(provider),
{
    match provider {
        Provider::Github => "clone_url",
        Provider::Gitlab => "http_url_to_repo",
    }
}

/// The provider-specific name of the clone-URL field.
pub open spec fn spec_url_key(provider: Provider) -> Seq<char> {
    match provider {
        Provider::Github => "clone_url"@,
        Provider::Gitlab => "http_url_to_repo"@,
    }
}

/// Reads a listing body for a provider: `None` when the body is not a JSON
/// array — the malformed-response case, a per-account failure for the
/// caller — else the extracted fields of each entry, in listing order.
pub fn parse_listing(body: &str, provider: Provider) -> (r: Option<Vec<RepoFields>>)
    ensures
        r.deep_view() == spec_listing_of(body@, "name"@, spec_url_key(provider)),
        r is Some <==> spec_listing_of(body@, "name"@, spec_url_key(provider)) is Some,
{
    read_listing(body, "name", url_key(provider))
}

} // verus!
