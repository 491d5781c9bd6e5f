//! The routing decision: a POST to the submission path goes to the
//! submission handler; every other request is delegated to static file
//! serving.

use vstd::prelude::*;
use vstd::string::StrSliceExecFns;

verus! {

/// Where a request is dispatched.
#[derive(Clone, Copy, Debug, PartialEq, Eq, Structural)]
pub enum Route {
    /// The submission handler.
    Submit,
    /// Static file serving rooted at the configured directory.
    StaticFile,
}

/// The method that reaches the submission handler.
pub open spec fn submit_method_spec() -> Seq<char> {
    "POST"@
}

/// The path that reaches the submission handler.
pub open spec fn submit_path_spec() -> Seq<char> {
    "/submit"@
}

pub fn submit_method() -> (r: &'static str)
    ensures
        r@ == submit_method_spec(),
{
    "POST"
}

pub fn submit_path() -> (r: &'static str)
    ensures
        r@ == submit_path_spec(),
{
    "/submit"
}

/// The routing rule: exactly a POST to the submission path is a submission;
/// everything else falls back to static file serving.
pub open spec fn route_spec(method: Seq<char>, path: Seq<char>) -> Route {
    if method == submit_method_spec() && path == submit_path_spec() {
        Route::Submit
    } else {
        Route::StaticFile
    }
}

/// Character-for-character equality of two strings.
pub fn str_eq(a: &str, b: &str) -> (r: bool)
    ensures
        r <==> a@ == b@,
{
    let n = a.unicode_len();
    if n != b.unicode_len() {
        return false;
    }
    let mut i: usize = 0;
    while i < n
        invariant
            n == a@.len(),
            n == b@.len(),
            0 <= i <= n,
            forall|j: int| 0 <= j < i ==> a@[j] == b@[j],
        decreases n - i,
    {
        if a.get_char(i) != b.get_char(i) {
            return false;
        }
        i = i + 1;
    }
    proof {
        assert(a@ =~= b@);
    }
    true
}

/// Decide where a request goes, following the routing rule.
pub fn route_request(method: &str, path: &str) -> (r: Route)
    ensures
        r == route_spec(method@, path@),
{
    if str_eq(method, submit_method()) && str_eq(path, submit_path()) {
        Route::Submit
    } else {
        Route::StaticFile
    }
}

} // verus!
