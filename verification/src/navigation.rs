//! The login redirect and the not-found message.

use vstd::prelude::*;
use vstd::string::*;
use crate::text::{join_spec, join_texts};

verus! {

broadcast use vstd::string::group_string_axioms;

/// Where the login page sends the browser: the server's auth handler,
/// told to come back to `redirect_url`, or to the dashboard when none is
/// given.
pub fn login_redirect(redirect_url: &str) -> (r: String)
    ensures
        redirect_url@.len() == 0 ==> r@ == "/auth?redirect_url="@ + "/dashboard"@,
        redirect_url@.len() > 0 ==> r@ == "/auth?redirect_url="@ + redirect_url@,
{
    let target = if redirect_url.is_empty() {
        "/dashboard"
    } else {
        redirect_url
    };
    String::from_str("/auth?redirect_url=").concat(target)
}

/// The message of the not-found page: the path made of the unmatched
/// route segments.
pub fn not_found_message(segments: &Vec<String>) -> (r: String)
    ensures
        r@ == "Page not found: /"@ + join_spec(segments.deep_view(), "/"@),
{
    let path = join_texts(segments, "/");
    String::from_str("Page not found: /").concat(path.as_str())
}

} // verus!
