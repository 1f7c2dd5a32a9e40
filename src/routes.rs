//! The route table of the authentication pages and the static-asset fallback.

use vstd::prelude::*;
use vstd::string::*;

verus! {

/// Where a request path under the authentication UI is handled.
#[derive(Debug, Clone)]
pub enum Route {
    Login,
    Logout,
    Register,
    ResetPasswordRequest,
    ResetPasswordUpdate,
    ChangePassword,
    ChangeEmail,
    /// A static asset of the client bundle, at this path relative to the bundle.
    Asset { path: String },
    /// Not a path of the authentication UI.
    NotFound,
}

/// The common prefix of every path of the authentication UI.
pub open spec fn ui_prefix() -> Seq<char> {
    "/_/auth/"@
}

/// `s` starts with `prefix`.
pub open spec fn has_prefix(s: Seq<char>, prefix: Seq<char>) -> bool {
    prefix.len() <= s.len() && s.subrange(0, prefix.len() as int) == prefix
}

/// The asset path that is looked up for a requested relative path: the bare
/// `profile` page is served from its index document, every other path as it is.
pub open spec fn asset_path_spec(path: Seq<char>) -> Seq<char> {
    if path == "profile"@ {
        "profile/index.html"@
    } else {
        path
    }
}

/// The route of a request path: an exact page path first, then the asset
/// fallback for anything else under the prefix.
pub open spec fn route_matches(r: Route, path: Seq<char>) -> bool {
    if path == "/_/auth/login"@ {
        r is Login
    } else if path == "/_/auth/logout"@ {
        r is Logout
    } else if path == "/_/auth/register"@ {
        r is Register
    } else if path == "/_/auth/reset_password/request"@ {
        r is ResetPasswordRequest
    } else if path == "/_/auth/reset_password/update"@ {
        r is ResetPasswordUpdate
    } else if path == "/_/auth/change_password"@ {
        r is ChangePassword
    } else if path == "/_/auth/change_email"@ {
        r is ChangeEmail
    } else if has_prefix(path, ui_prefix()) {
        r matches Route::Asset { path: p } && p@ == asset_path_spec(
            path.subrange(ui_prefix().len() as int, path.len() as int),
        )
    } else {
        r is NotFound
    }
}

/// Whether two strings hold the same characters.
pub fn str_eq(a: &str, b: &str) -> (r: bool)
    ensures
        r == (a@ == b@),
{
    let n = a.unicode_len();
    let m = b.unicode_len();
    if n != m {
        return false;
    }
    let mut i: usize = 0;
    while i < n
        invariant
            n == a@.len(),
            n == b@.len(),
            i <= n,
            a@.subrange(0, i as int) == b@.subrange(0, i as int),
        decreases n - i,
    {
        if a.get_char(i) != b.get_char(i) {
            return false;
        }
        proof {
            assert(a@.subrange(0, i + 1) =~= a@.subrange(0, i as int).push(a@[i as int]));
            assert(b@.subrange(0, i + 1) =~= b@.subrange(0, i as int).push(b@[i as int]));
        }
        i = i + 1;
    }
    proof {
        assert(a@ =~= a@.subrange(0, n as int));
        assert(b@ =~= b@.subrange(0, n as int));
    }
    true
}

/// The rest of `s` after `prefix`, or `None` when `s` does not start with it.
pub fn strip_prefix<'a>(s: &'a str, prefix: &str) -> (r: Option<&'a str>)
    ensures
        r is None <==> !has_prefix(s@, prefix@),
        r matches Some(rest) ==> rest@ == s@.subrange(prefix@.len() as int, s@.len() as int),
{
    let n = s.unicode_len();
    let k = prefix.unicode_len();
    if k > n {
        return None;
    }
    let head = s.substring_char(0, k);
    if !str_eq(head, prefix) {
        return None;
    }
    Some(s.substring_char(k, n))
}

/// The asset path looked up for a requested path relative to the bundle.
pub fn resolve_asset_path(path: &str) -> (r: String)
    ensures
        r@ == asset_path_spec(path@),
{
    if str_eq(path, "profile") {
        String::from_str("profile/index.html")
    } else {
        String::from_str(path)
    }
}

/// Dispatches a request path to its page, or to the asset fallback.
pub fn route(path: &str) -> (r: Route)
    ensures
        route_matches(r, path@),
{
    if str_eq(path, "/_/auth/login") {
        Route::Login
    } else if str_eq(path, "/_/auth/logout") {
        Route::Logout
    } else if str_eq(path, "/_/auth/register") {
        Route::Register
    } else if str_eq(path, "/_/auth/reset_password/request") {
        Route::ResetPasswordRequest
    } else if str_eq(path, "/_/auth/reset_password/update") {
        Route::ResetPasswordUpdate
    } else if str_eq(path, "/_/auth/change_password") {
        Route::ChangePassword
    } else if str_eq(path, "/_/auth/change_email") {
        Route::ChangeEmail
    } else {
        match strip_prefix(path, "/_/auth/") {
            Some(rest) => Route::Asset { path: resolve_asset_path(rest) },
            None => Route::NotFound,
        }
    }
}

} // verus!
