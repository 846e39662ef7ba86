//! The hosting provider's owner-id lookup: the request URLs and the reading
//! of the response's `id` field.

use crate::strutil::concat2;
use vstd::prelude::*;

verus! {

/// The owner-id request URL for a user name.
pub fn user_api_url(username: &str) -> (r: String)
    ensures
        r@ == "https://api.github.com/users/"@ + username@,
{
    concat2("https://api.github.com/users/", username)
}

/// The repository request URL for an owner/name path.
pub fn repo_api_url(repo: &str) -> (r: String)
    ensures
        r@ == "https://api.github.com/repos/"@ + repo@,
{
    concat2("https://api.github.com/repos/", repo)
}

/// The id carried by a provider response: the `id` field when the response
/// held one, and the exact not-found error otherwise.
pub fn extract_id(id: Option<String>) -> (r: Result<String, String>)
    ensures
        r is Ok <==> id is Some,
        r is Ok ==> r.unwrap() == id.unwrap(),
        r is Err ==> r.unwrap_err()@ == "Not found!"@,
{
    match id {
        Some(v) => Ok(v),
        None => Err(String::from_str("Not found!")),
    }
}

} // verus!
