//! Which page an address of the client shows.
use vstd::prelude::*;
use vstd::string::*;

use crate::host::{Host, HostView};
use crate::text::{has_prefix, starts_with, strip_prefix};

verus! {

/// The pages that an address can lead to.
#[derive(Clone, Copy, Debug, PartialEq, Eq, Structural)]
pub enum Route {
    Followings,
    EditProfile,
    Login,
    Home,
}

/// Why an address cannot be routed.
#[derive(Clone, Copy, Debug, PartialEq, Eq, Structural)]
pub enum RouteError {
    /// The address is not under the page's own `endpoint/`.
    ForeignUrl,
}

pub const FOLLOWINGS_PATH: &'static str = "followings";
pub const EDIT_PROFILE_PATH: &'static str = "edit-profile";
pub const LOGIN_PATH: &'static str = "login";
pub const POST_PATH: &'static str = "/post/";

/// `endpoint/`: what every address of the client begins with.
pub open spec fn page_prefix(h: HostView) -> Seq<char> {
    h.endpoint() + "/"@
}

/// The page for a path (the address after `endpoint/`): by its first word,
/// the home page for anything else.
pub open spec fn route_of_path(path: Seq<char>) -> Route {
    if has_prefix(path, FOLLOWINGS_PATH@) {
        Route::Followings
    } else if has_prefix(path, EDIT_PROFILE_PATH@) {
        Route::EditProfile
    } else if has_prefix(path, LOGIN_PATH@) {
        Route::Login
    } else {
        Route::Home
    }
}

pub open spec fn route_spec(h: HostView, url: Seq<char>) -> Result<Route, RouteError> {
    if has_prefix(url, page_prefix(h)) {
        Ok(route_of_path(url.subrange(page_prefix(h).len() as int, url.len() as int)))
    } else {
        Err(RouteError::ForeignUrl)
    }
}

/// `endpoint/` for the page's host.
fn page_prefix_text(host: &Host) -> (r: String)
    ensures
        r@ == page_prefix(host@),
{
    let mut p = host.endpoint();
    p.append("/");
    p
}

/// The page that the address `url` shows.
pub fn route(host: &Host, url: &str) -> (r: Result<Route, RouteError>)
    ensures
        r == route_spec(host@, url@),
{
    let prefix = page_prefix_text(host);
    match strip_prefix(url, prefix.as_str()) {
        None => Err(RouteError::ForeignUrl),
        Some(path) => {
            if starts_with(path, FOLLOWINGS_PATH) {
                Ok(Route::Followings)
            } else if starts_with(path, EDIT_PROFILE_PATH) {
                Ok(Route::EditProfile)
            } else if starts_with(path, LOGIN_PATH) {
                Ok(Route::Login)
            } else {
                Ok(Route::Home)
            }
        },
    }
}

/// `endpoint/post/`: what the address of a post's page begins with.
pub open spec fn post_page_prefix(h: HostView) -> Seq<char> {
    h.endpoint() + POST_PATH@
}

/// The id of the post whose page `url` is: what follows `endpoint/post/`;
/// `None` where `url` is not the address of a post's page.
pub fn post_id_of(host: &Host, url: &str) -> (r: Option<String>)
    ensures
        r.is_some() == has_prefix(url@, post_page_prefix(host@)),
        r matches Some(id) ==> id@ == url@.subrange(
            post_page_prefix(host@).len() as int,
            url@.len() as int,
        ),
{
    let mut prefix = host.endpoint();
    prefix.append(POST_PATH);
    match strip_prefix(url, prefix.as_str()) {
        None => None,
        Some(id) => Some(String::from_str(id)),
    }
}

proof fn lemma_prefix_of_concat(p: Seq<char>, rest: Seq<char>)
    ensures
        has_prefix(p + rest, p),
        (p + rest).subrange(p.len() as int, (p + rest).len() as int) == rest,
{
    assert((p + rest).subrange(0, p.len() as int) =~= p);
    assert((p + rest).subrange(p.len() as int, (p + rest).len() as int) =~= rest);
}

/// Every address under the page's own `endpoint/` is routed, by its path alone.
pub proof fn law_every_own_address_is_routed(h: HostView, path: Seq<char>)
    ensures
        route_spec(h, page_prefix(h) + path) == Ok::<Route, RouteError>(route_of_path(path)),
{
    lemma_prefix_of_concat(page_prefix(h), path);
}

/// The page of post `id` is found again from its address.
pub proof fn law_post_address_gives_back_its_id(h: HostView, id: Seq<char>)
    ensures
        has_prefix(post_page_prefix(h) + id, post_page_prefix(h)),
        (post_page_prefix(h) + id).subrange(
            post_page_prefix(h).len() as int,
            (post_page_prefix(h) + id).len() as int,
        ) == id,
{
    lemma_prefix_of_concat(post_page_prefix(h), id);
}

} // verus!
