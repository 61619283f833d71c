//! The routes of the service: which request goes where, which routes need a
//! session, and where the static files lie.

use crate::utils::strings::{chars_of, join, has_prefix, starts_with, str_eq};
use vstd::prelude::*;
use vstd::string::*;

verus! {

/// The method of a request.
#[derive(Debug, PartialEq, Eq, Structural, Clone, Copy)]
pub enum Method {
    Get,
    Post,
    Put,
    Delete,
    /// Any other method.
    Other,
}

/// Where a request goes.
#[derive(Debug)]
pub enum Endpoint {
    /// `GET /`: the front page.
    Home,
    /// `GET /healthcheck`: always well.
    Healthcheck,
    /// `GET /auth/login`: the way to Discord.
    Login,
    /// `GET /auth/callback`: the way back from Discord.
    Callback,
    /// `GET /auth/logout`: signing out.
    Logout,
    /// `GET /api/redirect`: all redirects.
    ListRedirects,
    /// `POST /api/redirect`: a new redirect.
    CreateRedirect,
    /// `PUT /api/redirect`: another target for a redirect.
    UpdateRedirect,
    /// `DELETE /api/redirect`: a redirect less.
    DeleteRedirect,
    /// `GET /ui/redirect_url_input`: the input for a new redirect.
    RedirectUrlInput,
    /// `/assets`, `/favicon.ico` and `/site.webmanifest`: static files.
    Static,
    /// `GET` of any other path: the redirect whose key is the path without
    /// its first slash.
    Resolve(String),
    /// A path that is known, asked for with a method that it does not take.
    MethodNotAllowed,
    /// No route.
    NotFound,
}

/// Where a request goes, as contracts speak of it.
pub enum EndpointView {
    Home,
    Healthcheck,
    Login,
    Callback,
    Logout,
    ListRedirects,
    CreateRedirect,
    UpdateRedirect,
    DeleteRedirect,
    RedirectUrlInput,
    Static,
    Resolve(Seq<char>),
    MethodNotAllowed,
    NotFound,
}

impl View for Endpoint {
    type V = EndpointView;

    open spec fn view(&self) -> EndpointView {
        match self {
            Endpoint::Home => EndpointView::Home,
            Endpoint::Healthcheck => EndpointView::Healthcheck,
            Endpoint::Login => EndpointView::Login,
            Endpoint::Callback => EndpointView::Callback,
            Endpoint::Logout => EndpointView::Logout,
            Endpoint::ListRedirects => EndpointView::ListRedirects,
            Endpoint::CreateRedirect => EndpointView::CreateRedirect,
            Endpoint::UpdateRedirect => EndpointView::UpdateRedirect,
            Endpoint::DeleteRedirect => EndpointView::DeleteRedirect,
            Endpoint::RedirectUrlInput => EndpointView::RedirectUrlInput,
            Endpoint::Static => EndpointView::Static,
            Endpoint::Resolve(key) => EndpointView::Resolve(key@),
            Endpoint::MethodNotAllowed => EndpointView::MethodNotAllowed,
            Endpoint::NotFound => EndpointView::NotFound,
        }
    }
}

/// The route that takes only `GET`, for a request with the method `method`.
pub open spec fn get_only(method: Method, endpoint: EndpointView) -> EndpointView {
    if method == Method::Get {
        endpoint
    } else {
        EndpointView::MethodNotAllowed
    }
}

/// Whether `path` is one of the static files or lies under `/assets`.
pub open spec fn is_static_path(path: Seq<char>) -> bool {
    path == "/assets"@ || has_prefix(path, "/assets/"@) || path == "/favicon.ico"@ || path
        == "/site.webmanifest"@
}

/// Where the request for `path` with the method `method` goes. The routes
/// with a fixed path come first; every other path that has something after
/// its first slash is a short key.
pub open spec fn endpoint_of(method: Method, path: Seq<char>) -> EndpointView {
    if path == "/"@ {
        get_only(method, EndpointView::Home)
    } else if path == "/healthcheck"@ {
        get_only(method, EndpointView::Healthcheck)
    } else if path == "/auth/login"@ {
        get_only(method, EndpointView::Login)
    } else if path == "/auth/callback"@ {
        get_only(method, EndpointView::Callback)
    } else if path == "/auth/logout"@ {
        get_only(method, EndpointView::Logout)
    } else if path == "/api/redirect"@ {
        match method {
            Method::Get => EndpointView::ListRedirects,
            Method::Post => EndpointView::CreateRedirect,
            Method::Put => EndpointView::UpdateRedirect,
            Method::Delete => EndpointView::DeleteRedirect,
            Method::Other => EndpointView::MethodNotAllowed,
        }
    } else if path == "/ui/redirect_url_input"@ {
        get_only(method, EndpointView::RedirectUrlInput)
    } else if is_static_path(path) {
        EndpointView::Static
    } else if path.len() > 1 && path[0] == '/' {
        get_only(method, EndpointView::Resolve(path.skip(1)))
    } else {
        EndpointView::NotFound
    }
}

/// Whether a route is open only to a request with a session: the API and
/// the fragments of the dashboard.
pub open spec fn session_needed(endpoint: EndpointView) -> bool {
    endpoint is ListRedirects || endpoint is CreateRedirect || endpoint is UpdateRedirect
        || endpoint is DeleteRedirect || endpoint is RedirectUrlInput
}

/// The route for `GET` alone.
fn only_get(method: Method, endpoint: Endpoint) -> (r: Endpoint)
    ensures
        r@ == get_only(method, endpoint@),
{
    match method {
        Method::Get => endpoint,
        _ => Endpoint::MethodNotAllowed,
    }
}

/// See [`endpoint_of`].
pub fn main_router(method: Method, path: &str) -> (endpoint: Endpoint)
    ensures
        endpoint@ == endpoint_of(method, path@),
{
    if str_eq(path, "/") {
        only_get(method, Endpoint::Home)
    } else if str_eq(path, "/healthcheck") {
        only_get(method, Endpoint::Healthcheck)
    } else if str_eq(path, "/auth/login") {
        only_get(method, Endpoint::Login)
    } else if str_eq(path, "/auth/callback") {
        only_get(method, Endpoint::Callback)
    } else if str_eq(path, "/auth/logout") {
        only_get(method, Endpoint::Logout)
    } else if str_eq(path, "/api/redirect") {
        match method {
            Method::Get => Endpoint::ListRedirects,
            Method::Post => Endpoint::CreateRedirect,
            Method::Put => Endpoint::UpdateRedirect,
            Method::Delete => Endpoint::DeleteRedirect,
            Method::Other => Endpoint::MethodNotAllowed,
        }
    } else if str_eq(path, "/ui/redirect_url_input") {
        only_get(method, Endpoint::RedirectUrlInput)
    } else if str_eq(path, "/assets") || starts_with(path, "/assets/") || str_eq(
        path,
        "/favicon.ico",
    ) || str_eq(path, "/site.webmanifest") {
        Endpoint::Static
    } else {
        let chars = chars_of(path);
        if chars.len() > 1 && chars[0] == '/' {
            let key = path.substring_char(1, chars.len());
            proof {
                assert(path@.skip(1) =~= path@.subrange(1, path@.len() as int));
            }
            only_get(method, Endpoint::Resolve(String::from_str(key)))
        } else {
            Endpoint::NotFound
        }
    }
}

/// See [`session_needed`].
pub fn needs_session(endpoint: &Endpoint) -> (needed: bool)
    ensures
        needed == session_needed(endpoint@),
{
    match endpoint {
        Endpoint::ListRedirects => true,
        Endpoint::CreateRedirect => true,
        Endpoint::UpdateRedirect => true,
        Endpoint::DeleteRedirect => true,
        Endpoint::RedirectUrlInput => true,
        _ => false,
    }
}

/// Where the static files lie.
#[derive(Debug)]
pub struct AssetPaths {
    /// The directory that `/assets` serves.
    pub assets: String,
    /// The file that `/favicon.ico` serves.
    pub favicon: String,
    /// The file that `/site.webmanifest` serves.
    pub manifest: String,
}

/// The places of the static files below the directory `base`: the
/// directory `assets` in it, and the two files in that.
pub fn services_router(base: &str) -> (paths: AssetPaths)
    ensures
        paths.assets@ == base@ + "/assets"@,
        paths.favicon@ == base@ + "/assets"@ + "/favicon.ico"@,
        paths.manifest@ == base@ + "/assets"@ + "/site.webmanifest"@,
{
    let assets = join(base, "/assets");
    let favicon = join(assets.as_str(), "/favicon.ico");
    let manifest = join(assets.as_str(), "/site.webmanifest");
    AssetPaths { assets, favicon, manifest }
}

} // verus!
