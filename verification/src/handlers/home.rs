//! The front page.

use crate::middleware::auth::UserId;
use crate::utils::strings::{join, str_eq};
use vstd::prelude::*;
use vstd::string::*;

verus! {

/// The page that the front page shows.
#[derive(Debug)]
pub enum HomePage {
    /// The dashboard, which shows short links under the address `host`.
    Dashboard { host: String },
    /// The invitation to sign in.
    Login,
}

/// The address under which the dashboard shows short links: the local one
/// for the local host, else the host over `https`, both with a slash at the
/// end.
pub open spec fn dashboard_host(host: Seq<char>) -> Seq<char> {
    if host == "localhost:8080"@ {
        "http://localhost:8080/"@
    } else {
        "https://"@ + host + "/"@
    }
}

/// The page for a request, as contracts speak of it: `Some` of the address
/// for the dashboard, `None` for the invitation to sign in.
pub open spec fn page_view(page: HomePage) -> Option<Seq<char>> {
    match page {
        HomePage::Dashboard { host } => Some(host@),
        HomePage::Login => None,
    }
}

/// The front page for a request from `user` with the `Host` header `host`:
/// the dashboard for a user, the invitation to sign in for nobody. The
/// dashboard needs the header: without it there is no page.
pub fn get(user: Option<UserId>, host: Option<&str>) -> (page: Option<HomePage>)
    ensures
        match (user, host) {
            (None, _) => page matches Some(p) && page_view(p) == None::<Seq<char>>,
            (Some(_), Some(h)) => page matches Some(p) && page_view(p) == Some(
                dashboard_host(h@),
            ),
            (Some(_), None) => page is None,
        },
{
    match user {
        None => Some(HomePage::Login),
        Some(_) => match host {
            None => None,
            Some(h) => {
                if str_eq(h, "localhost:8080") {
                    Some(HomePage::Dashboard { host: String::from_str("http://localhost:8080/") })
                } else {
                    let mut address = join("https://", h);
                    address.append("/");
                    Some(HomePage::Dashboard { host: address })
                }
            },
        },
    }
}

} // verus!
