//! What the service answers to a request, as plain data.

use crate::error::{AppError, ErrorKind};
use crate::models::redirect::{redirect_views, RedirectRow, RedirectView};
use crate::utils::strings::opt_string_view;
use vstd::prelude::*;
use vstd::string::*;

verus! {

/// A cookie that the service sets.
#[derive(Debug)]
pub struct SessionCookie {
    pub name: String,
    pub value: String,
    pub path: String,
    /// When the cookie expires, in seconds since the Unix epoch. A cookie
    /// without it lasts as long as the browser session.
    pub expires: Option<i64>,
}

/// A cookie as contracts speak of it.
pub struct CookieView {
    pub name: Seq<char>,
    pub value: Seq<char>,
    pub path: Seq<char>,
    pub expires: Option<i64>,
}

impl View for SessionCookie {
    type V = CookieView;

    open spec fn view(&self) -> CookieView {
        CookieView {
            name: self.name@,
            value: self.value@,
            path: self.path@,
            expires: self.expires,
        }
    }
}

/// The views of a sequence of cookies.
pub open spec fn cookie_views(cookies: Seq<SessionCookie>) -> Seq<CookieView> {
    cookies.map_values(|c: SessionCookie| c@)
}

/// The body of a response.
#[derive(Debug)]
pub enum Body {
    /// No body.
    Empty,
    /// Plain text.
    Text(String),
    /// The JSON object `{"error": ...}`.
    Error(String),
    /// The JSON object `{"message": ...}`.
    Message(String),
    /// A redirect as a JSON object.
    Redirect(RedirectRow),
    /// Redirects as a JSON array.
    Redirects(Vec<RedirectRow>),
}

/// The body of a response as contracts speak of it.
pub enum BodyView {
    Empty,
    Text(Seq<char>),
    Error(Seq<char>),
    Message(Seq<char>),
    Redirect(RedirectView),
    Redirects(Seq<RedirectView>),
}

impl View for Body {
    type V = BodyView;

    open spec fn view(&self) -> BodyView {
        match self {
            Body::Empty => BodyView::Empty,
            Body::Text(text) => BodyView::Text(text@),
            Body::Error(message) => BodyView::Error(message@),
            Body::Message(message) => BodyView::Message(message@),
            Body::Redirect(row) => BodyView::Redirect(row@),
            Body::Redirects(rows) => BodyView::Redirects(redirect_views(rows@)),
        }
    }
}

/// A response: its status, the headers that the service sets, and its body.
#[derive(Debug)]
pub struct Reply {
    pub status: u16,
    /// The `Location` header.
    pub location: Option<String>,
    /// The `Cache-Control` header.
    pub cache_control: Option<String>,
    /// The cookies to set, each of them encrypted on its way out.
    pub cookies: Vec<SessionCookie>,
    pub body: Body,
}

/// A response as contracts speak of it.
pub struct ReplyView {
    pub status: u16,
    pub location: Option<Seq<char>>,
    pub cache_control: Option<Seq<char>>,
    pub cookies: Seq<CookieView>,
    pub body: BodyView,
}

impl View for Reply {
    type V = ReplyView;

    open spec fn view(&self) -> ReplyView {
        ReplyView {
            status: self.status,
            location: opt_string_view(self.location),
            cache_control: opt_string_view(self.cache_control),
            cookies: cookie_views(self.cookies@),
            body: self.body@,
        }
    }
}

impl ReplyView {
    /// The response with the status `status` and the body `body`, and no
    /// header of the service's own.
    pub open spec fn plain(status: u16, body: BodyView) -> ReplyView {
        ReplyView {
            status,
            location: None,
            cache_control: None,
            cookies: Seq::empty(),
            body,
        }
    }

    /// The response that reports an error in the JSON object `{"error":
    /// message}`.
    pub open spec fn error(status: u16, message: Seq<char>) -> ReplyView {
        ReplyView::plain(status, BodyView::Error(message))
    }

    /// The response that reports an error of the kind `kind`: the status of
    /// that kind, and the message in the JSON object `{"error": message}`.
    pub open spec fn failure(kind: ErrorKind, message: Seq<char>) -> ReplyView {
        ReplyView::error(kind.spec_status(), message)
    }

    /// The temporary redirect to `url`, which caches may keep as
    /// `cache_control` says.
    pub open spec fn redirect(url: Seq<char>, cache_control: Option<Seq<char>>) -> ReplyView {
        ReplyView {
            status: 307,
            location: Some(url),
            cache_control,
            cookies: Seq::empty(),
            body: BodyView::Empty,
        }
    }
}

impl Reply {
    /// See [`ReplyView::plain`].
    pub fn plain(status: u16, body: Body) -> (reply: Reply)
        ensures
            reply@ == ReplyView::plain(status, body@),
    {
        let reply = Reply {
            status,
            location: None,
            cache_control: None,
            cookies: Vec::new(),
            body,
        };
        assert(cookie_views(reply.cookies@) =~= Seq::empty());
        reply
    }

    /// See [`ReplyView::error`].
    pub fn error(status: u16, message: String) -> (reply: Reply)
        ensures
            reply@ == ReplyView::error(status, message@),
    {
        Reply::plain(status, Body::Error(message))
    }

    /// See [`ReplyView::failure`].
    pub fn failure(e: AppError) -> (reply: Reply)
        ensures
            reply@ == ReplyView::failure(e.kind, e.message@),
    {
        Reply::error(e.kind.status(), e.message)
    }

    /// See [`ReplyView::redirect`]. `cache_control` is the value of the
    /// header, if there is to be one.
    pub fn redirect(url: &str, cache_control: Option<&str>) -> (reply: Reply)
        ensures
            reply@ == ReplyView::redirect(
                url@,
                match cache_control {
                    Some(c) => Some(c@),
                    None => None,
                },
            ),
    {
        let reply = Reply {
            status: 307,
            location: Some(String::from_str(url)),
            cache_control: match cache_control {
                Some(c) => Some(String::from_str(c)),
                None => None,
            },
            cookies: Vec::new(),
            body: Body::Empty,
        };
        assert(cookie_views(reply.cookies@) =~= Seq::empty());
        reply
    }
}

} // verus!
