//! Following a short key to its target.

use crate::database::{
    lemma_position, lemma_position_is, position, redirect_keys, Database, DatabaseView,
};
use crate::models::redirect::{get_all_redirects, redirect_views, RedirectRow, RedirectView};
use crate::response::{Body, BodyView, Reply, ReplyView};
use crate::utils::strings::opt_string_view;
use vstd::prelude::*;
use vstd::string::*;

verus! {

/// How long caches may keep the redirect to a target.
pub open spec fn target_cache_control() -> Seq<char> {
    "max-age=180, public"@
}

/// The temporary redirect to `url` that caches may keep for three minutes.
pub fn redirect_with_cache_control(url: &str) -> (reply: Reply)
    ensures
        reply@ == ReplyView::redirect(url@, Some(target_cache_control())),
{
    Reply::redirect(url, Some("max-age=180, public"))
}

/// The answer to a request for a key, and the key whose visit is to be
/// counted once the answer is on its way. Counting is not part of
/// answering: it may be late and it may fail, and the answer stands.
pub struct Resolution {
    pub reply: Reply,
    pub visited: Option<String>,
}

/// The answer to a request for the key `path`, given the redirects that
/// there are: a redirect to the target of the first that has the key, to be
/// counted as a visit, and `404` where none has it.
pub open spec fn resolution(rows: Seq<RedirectView>, path: Seq<char>) -> (ReplyView, Option<
    Seq<char>,
>) {
    let at = position(redirect_keys(rows), path);
    if at < rows.len() {
        (ReplyView::redirect(rows[at].url, Some(target_cache_control())), Some(path))
    } else {
        (ReplyView::plain(404, BodyView::Text("Not Found"@)), None)
    }
}

/// The answer where the redirects could not be listed: `404`, as for a key
/// that nobody has.
pub open spec fn no_resolution() -> (ReplyView, Option<Seq<char>>) {
    (ReplyView::plain(404, BodyView::Text("Not Found"@)), None)
}

/// The answer that no redirect has the key.
fn not_found() -> (found: Resolution)
    ensures
        (found.reply@, opt_string_view(found.visited)) == no_resolution(),
{
    Resolution {
        reply: Reply::plain(404, Body::Text(String::from_str("Not Found"))),
        visited: None,
    }
}

/// See [`resolution`].
pub fn resolve(rows: &Vec<RedirectRow>, path: &str) -> (found: Resolution)
    ensures
        (found.reply@, opt_string_view(found.visited)) == resolution(redirect_views(rows@), path@),
{
    let wanted = String::from_str(path);
    let ghost keys = redirect_keys(redirect_views(rows@));
    let mut at: usize = 0;
    while at < rows.len()
        invariant
            at <= rows@.len(),
            wanted@ == path@,
            keys == redirect_keys(redirect_views(rows@)),
            forall|j: int| 0 <= j < at ==> keys[j] != path@,
        decreases rows@.len() - at,
    {
        proof {
            lemma_position(keys, path@);
            assert(keys[at as int] == rows@[at as int].key@);
        }
        if rows[at].key == wanted {
            proof {
                lemma_position_is(keys, path@, at as int);
            }
            return Resolution {
                reply: redirect_with_cache_control(rows[at].url.as_str()),
                visited: Some(rows[at].key.clone()),
            };
        }
        at = at + 1;
    }
    proof {
        lemma_position_is(keys, path@, at as int);
    }
    not_found()
}

/// What a request for the key `path` is answered, given the store.
pub open spec fn spec_get(db: DatabaseView, path: Seq<char>) -> (ReplyView, Option<Seq<char>>) {
    match db.redirects {
        Some(rows) => resolution(rows, path),
        None => no_resolution(),
    }
}

/// Answers a request for the key `path`: see [`resolution`]. A store that
/// cannot list its redirects answers as if there were none.
pub fn get(db: &Database, path: &str) -> (found: Resolution)
    ensures
        (found.reply@, opt_string_view(found.visited)) == spec_get(db@, path@),
{
    match get_all_redirects(db) {
        Ok(rows) => resolve(&rows, path),
        Err(_) => not_found(),
    }
}

/// A request for a key that has a redirect is answered with a temporary
/// redirect to the target that the store holds for it, and that key's visit
/// is to be counted.
pub proof fn law_existing_key_redirects(db: DatabaseView, key: Seq<char>)
    requires
        db.redirect(key) is Some,
    ensures
        spec_get(db, key) == (
            ReplyView::redirect(db.redirect(key)->0.url, Some(target_cache_control())),
            Some(key),
        ),
        spec_get(db, key).0.status == 307,
        spec_get(db, key).0.location == Some(db.redirect(key)->0.url),
{
}

/// A request for a key that has no redirect is answered with `404`, and no
/// visit is counted.
pub proof fn law_missing_key_is_not_found(db: DatabaseView, key: Seq<char>)
    requires
        db.redirect(key) is None,
    ensures
        spec_get(db, key) == no_resolution(),
        spec_get(db, key).0.status == 404,
{
}

} // verus!
