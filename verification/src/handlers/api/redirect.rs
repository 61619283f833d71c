//! Listing, creating, changing and removing redirects.

use crate::database::{Database, DatabaseView};
use crate::error::{unit_outcome, AppError, ErrorKind, Outcome};
use crate::middleware::auth::UserId;
use crate::models::redirect::{
    delete_redirect, get_all_redirects, law_saved_redirect_is_found, normalize_url,
    normalized_url, redirect_outcome, redirects_outcome, save_new_redirect,
    spec_delete_redirect, spec_get_all_redirects, spec_get_redirect, spec_save_new_redirect,
    spec_update_redirect, update_redirect, RedirectRow, RedirectView,
};
use crate::response::{Body, BodyView, Reply, ReplyView};
use crate::utils::strings::{get_host_header, host_with_proto};
use vstd::prelude::*;
use vstd::string::*;

verus! {

/// The body of a request that creates or changes a redirect.
#[derive(Debug)]
pub struct RedirectInput {
    pub key: String,
    pub url: String,
}

/// The body of a request that removes a redirect.
#[derive(Debug)]
pub struct DeleteRedirectInput {
    pub key: String,
}

/// The answer to a listing: the rows, or the error.
pub open spec fn listed_reply(listing: Outcome<Seq<RedirectView>>) -> ReplyView {
    match listing {
        Outcome::Done(rows) => ReplyView::plain(200, BodyView::Redirects(rows)),
        Outcome::Failed(kind, message) => ReplyView::failure(kind, message),
    }
}

/// The answer to a request that saved or changed a redirect: the row under
/// the status `status`, or the error.
pub open spec fn row_reply(status: u16, saved: Outcome<RedirectView>) -> ReplyView {
    match saved {
        Outcome::Done(row) => ReplyView::plain(status, BodyView::Redirect(row)),
        Outcome::Failed(kind, message) => ReplyView::failure(kind, message),
    }
}

/// The answer to a request that removed a redirect: a message, or the error.
pub open spec fn deleted_reply(deleted: Outcome<()>) -> ReplyView {
    match deleted {
        Outcome::Done(_) => ReplyView::plain(
            200,
            BodyView::Message("Redirect deleted successfully"@),
        ),
        Outcome::Failed(kind, message) => ReplyView::failure(kind, message),
    }
}

/// See [`listed_reply`].
pub fn list_response(listing: Result<Vec<RedirectRow>, AppError>) -> (reply: Reply)
    ensures
        reply@ == listed_reply(redirects_outcome(listing)),
{
    match listing {
        Ok(rows) => Reply::plain(200, Body::Redirects(rows)),
        Err(e) => Reply::failure(e),
    }
}

/// The answer to a request that created a redirect: the row under `201`, or
/// the error. See [`row_reply`].
pub fn create_response(saved: Result<RedirectRow, AppError>) -> (reply: Reply)
    ensures
        reply@ == row_reply(201, redirect_outcome(saved)),
{
    match saved {
        Ok(row) => Reply::plain(201, Body::Redirect(row)),
        Err(e) => Reply::failure(e),
    }
}

/// The answer to a request that changed a redirect: the row under `200`, or
/// the error. See [`row_reply`].
pub fn update_response(saved: Result<RedirectRow, AppError>) -> (reply: Reply)
    ensures
        reply@ == row_reply(200, redirect_outcome(saved)),
{
    match saved {
        Ok(row) => Reply::plain(200, Body::Redirect(row)),
        Err(e) => Reply::failure(e),
    }
}

/// See [`deleted_reply`].
pub fn delete_response(deleted: Result<(), AppError>) -> (reply: Reply)
    ensures
        reply@ == deleted_reply(unit_outcome(deleted)),
{
    match deleted {
        Ok(_) => Reply::plain(200, Body::Message(String::from_str("Redirect deleted successfully"))),
        Err(e) => Reply::failure(e),
    }
}

/// What creating a redirect does to the store and answers: the target gets
/// its scheme, and the redirect is saved for the host of the request.
pub open spec fn spec_post(
    db: DatabaseView,
    host: Seq<char>,
    user: i64,
    key: Seq<char>,
    url: Seq<char>,
    now: i64,
) -> (DatabaseView, ReplyView) {
    let (after, saved) = spec_save_new_redirect(
        db,
        key,
        normalized_url(url),
        host_with_proto(host, false),
        user,
        now,
    );
    (after, row_reply(201, saved))
}

/// What changing a redirect does to the store and answers: the target gets
/// its scheme, and the redirect of the host of the request is updated.
pub open spec fn spec_put(db: DatabaseView, host: Seq<char>, key: Seq<char>, url: Seq<char>) -> (
    DatabaseView,
    ReplyView,
) {
    let (after, saved) = spec_update_redirect(
        db,
        key,
        normalized_url(url),
        host_with_proto(host, false),
    );
    (after, row_reply(200, saved))
}

/// What removing a redirect does to the store and answers.
pub open spec fn spec_delete(db: DatabaseView, host: Seq<char>, key: Seq<char>) -> (
    DatabaseView,
    ReplyView,
) {
    let (after, deleted) = spec_delete_redirect(db, key, host_with_proto(host, false));
    (after, deleted_reply(deleted))
}

/// Lists all redirects, of every host.
pub fn get(db: &Database) -> (reply: Reply)
    ensures
        reply@ == listed_reply(spec_get_all_redirects(db@)),
{
    list_response(get_all_redirects(db))
}

/// Creates the redirect that `payload` describes, for the host that the
/// request named in `host` and the user `user`, at the time `now`.
pub fn post(db: &mut Database, host: &str, user: UserId, payload: RedirectInput, now: i64) -> (reply:
    Reply)
    requires
        old(db)@.wf(),
    ensures
        final(db)@.wf(),
        (final(db)@, reply@) == spec_post(
            old(db)@,
            host@,
            user.0,
            payload.key@,
            payload.url@,
            now,
        ),
{
    let url = normalize_url(payload.url.as_str());
    let host = get_host_header(host, false);
    create_response(
        save_new_redirect(
            db,
            payload.key.as_str(),
            url.as_str(),
            host.as_str(),
            user.into_i64(),
            now,
        ),
    )
}

/// Gives the redirect that `payload` names the target that it names, for
/// the host that the request named in `host`.
pub fn put(db: &mut Database, host: &str, payload: RedirectInput) -> (reply: Reply)
    requires
        old(db)@.wf(),
    ensures
        final(db)@.wf(),
        (final(db)@, reply@) == spec_put(old(db)@, host@, payload.key@, payload.url@),
{
    let url = normalize_url(payload.url.as_str());
    let host = get_host_header(host, false);
    update_response(update_redirect(db, payload.key.as_str(), url.as_str(), host.as_str()))
}

/// Removes the redirect that `payload` names, for the host that the request
/// named in `host`.
pub fn delete(db: &mut Database, host: &str, payload: DeleteRedirectInput) -> (reply: Reply)
    requires
        old(db)@.wf(),
    ensures
        final(db)@.wf(),
        (final(db)@, reply@) == spec_delete(old(db)@, host@, payload.key@),
{
    let host = get_host_header(host, false);
    delete_response(delete_redirect(db, payload.key.as_str(), host.as_str()))
}

/// A redirect that is created under a free key is answered with `201` and
/// its row, whose target is the given one with its scheme, and looking the
/// key up under the same host then gives that row.
pub proof fn law_created_redirect_is_found(
    db: DatabaseView,
    host: Seq<char>,
    user: i64,
    key: Seq<char>,
    url: Seq<char>,
    now: i64,
)
    requires
        db.wf(),
        db.ready(),
        db.redirect(key) is None,
        db.next_redirect_id < i64::MAX,
    ensures
        ({
            let (after, reply) = spec_post(db, host, user, key, url, now);
            &&& reply.status == 201
            &&& reply.body matches BodyView::Redirect(row)
            &&& row.url == normalized_url(url)
            &&& row.key == key
            &&& spec_get_redirect(after, key, host) == Outcome::Done(row)
        }),
{
    law_saved_redirect_is_found(db, key, normalized_url(url), host, user, now);
}

} // verus!
