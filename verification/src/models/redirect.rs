//! Redirects: a short key that leads to a target URL.

use crate::database::{
    lemma_position, lemma_position_is, position, redirect_keys, Command, Database, DatabaseView,
    DbFailure, Effect, ExecOutcome, FailureKind, RedirectQuery, RowAnswer,
};
use crate::error::{unit_outcome, AppError, ErrorKind, Outcome};
use crate::utils::strings::{join, decimal, has_prefix, starts_with, u64_to_string};
use vstd::prelude::*;
use vstd::string::*;

verus! {

/// A row of the table `redirects`. Times are seconds since the Unix epoch.
#[derive(Debug)]
pub struct RedirectRow {
    pub id: i64,
    pub key: String,
    pub url: String,
    pub redirect_host: String,
    pub visits: u64,
    pub created_by: i64,
    pub created_utc: i64,
    pub updated_utc: i64,
}

/// A row of the table `redirects` as contracts speak of it.
pub struct RedirectView {
    pub id: i64,
    pub key: Seq<char>,
    pub url: Seq<char>,
    pub redirect_host: Seq<char>,
    pub visits: u64,
    pub created_by: i64,
    pub created_utc: i64,
    pub updated_utc: i64,
}

impl View for RedirectRow {
    type V = RedirectView;

    open spec fn view(&self) -> RedirectView {
        RedirectView {
            id: self.id,
            key: self.key@,
            url: self.url@,
            redirect_host: self.redirect_host@,
            visits: self.visits,
            created_by: self.created_by,
            created_utc: self.created_utc,
            updated_utc: self.updated_utc,
        }
    }
}

impl Clone for RedirectRow {
    fn clone(&self) -> (copy: RedirectRow)
        ensures
            copy@ == self@,
    {
        RedirectRow {
            id: self.id,
            key: self.key.clone(),
            url: self.url.clone(),
            redirect_host: self.redirect_host.clone(),
            visits: self.visits,
            created_by: self.created_by,
            created_utc: self.created_utc,
            updated_utc: self.updated_utc,
        }
    }
}

/// The views of a sequence of rows.
pub open spec fn redirect_views(rows: Seq<RedirectRow>) -> Seq<RedirectView> {
    rows.map_values(|row: RedirectRow| row@)
}

/// A target URL with its scheme: the URL itself where it begins with
/// `http://` or `https://`, else with `http://` in front.
pub open spec fn normalized_url(url: Seq<char>) -> Seq<char> {
    if has_prefix(url, "http://"@) || has_prefix(url, "https://"@) {
        url
    } else {
        "http://"@ + url
    }
}

/// See [`normalized_url`].
pub fn normalize_url(url: &str) -> (normal: String)
    ensures
        normal@ == normalized_url(url@),
{
    if starts_with(url, "http://") || starts_with(url, "https://") {
        String::from_str(url)
    } else {
        join("http://", url)
    }
}

/// A normalized URL always carries its scheme, and a URL that carries one
/// is left as it is.
pub proof fn law_normalized_url_has_scheme(url: Seq<char>)
    ensures
        has_prefix(normalized_url(url), "http://"@) || has_prefix(
            normalized_url(url),
            "https://"@,
        ),
        normalized_url(normalized_url(url)) == normalized_url(url),
{
    let n = normalized_url(url);
    if !(has_prefix(url, "http://"@) || has_prefix(url, "https://"@)) {
        assert(n.subrange(0, "http://"@.len() as int) =~= "http://"@);
    }
}

/// A row or an error, as contracts speak of it.
pub open spec fn redirect_outcome(r: Result<RedirectRow, AppError>) -> Outcome<RedirectView> {
    match r {
        Ok(row) => Outcome::Done(row@),
        Err(e) => Outcome::Failed(e.kind, e.message@),
    }
}

/// Rows or an error, as contracts speak of it.
pub open spec fn redirects_outcome(r: Result<Vec<RedirectRow>, AppError>) -> Outcome<
    Seq<RedirectView>,
> {
    match r {
        Ok(rows) => Outcome::Done(redirect_views(rows@)),
        Err(e) => Outcome::Failed(e.kind, e.message@),
    }
}

/// What the answer to an insert means: one row added is success, a key that
/// is taken is a conflict, and any other number of rows breaks the invariant
/// of the store.
pub open spec fn insert_verdict(effect: Effect) -> Outcome<()> {
    match effect {
        Effect::Affected(n) => if n == 1 {
            Outcome::Done(())
        } else {
            Outcome::Failed(
                ErrorKind::Validation,
                "Expected 1 row to be inserted, but got "@ + decimal(n as nat),
            )
        },
        Effect::Failed(FailureKind::UniqueViolation, message) => Outcome::Failed(
            ErrorKind::Conflict,
            message,
        ),
        Effect::Failed(FailureKind::Other, message) => Outcome::Failed(
            ErrorKind::Internal,
            message,
        ),
    }
}

/// What the answer to an update means: one row changed is success, and any
/// other number of rows means that no redirect has the key.
pub open spec fn update_verdict(effect: Effect) -> Outcome<()> {
    match effect {
        Effect::Affected(n) => if n == 1 {
            Outcome::Done(())
        } else {
            Outcome::Failed(ErrorKind::NotFound, "Failed to update redirect in database"@)
        },
        Effect::Failed(_, _) => Outcome::Failed(
            ErrorKind::Internal,
            "Failed to update redirect in database"@,
        ),
    }
}

/// What the answer to a statement means that touches the one row of a key:
/// one row is success, none means that no redirect has the key, and more
/// than one breaks the invariant of the store. `message` is what every
/// failure says.
pub open spec fn one_row_verdict(effect: Effect, message: Seq<char>) -> Outcome<()> {
    match effect {
        Effect::Affected(n) => if n == 1 {
            Outcome::Done(())
        } else if n == 0 {
            Outcome::Failed(ErrorKind::NotFound, message)
        } else {
            Outcome::Failed(ErrorKind::Validation, message)
        },
        Effect::Failed(_, _) => Outcome::Failed(ErrorKind::Internal, message),
    }
}

/// What the answer to a lookup means: the row, or why there is none.
pub open spec fn lookup_verdict(answer: RowAnswer<RedirectRow>) -> Outcome<RedirectView> {
    match answer {
        RowAnswer::Row(row) => Outcome::Done(row@),
        RowAnswer::Undecodable(message) => Outcome::Failed(ErrorKind::Internal, message@),
        RowAnswer::NoRow => Outcome::Failed(ErrorKind::NotFound, "Failed to get redirect by key"@),
        RowAnswer::FetchFailed(message) => Outcome::Failed(
            ErrorKind::Internal,
            "Failed to get redirect by key: "@ + message@,
        ),
        RowAnswer::QueryFailed(_) => Outcome::Failed(
            ErrorKind::Internal,
            "Failed to get redirect from database"@,
        ),
    }
}

/// The statement that saves a new redirect.
pub fn insert_command(key: &str, url: &str, host: &str, created_by: i64) -> (command: Command)
    ensures
        command matches Command::InsertRedirect { key: k, url: u, redirect_host: h, created_by: c }
            && k@ == key@ && u@ == url@ && h@ == host@ && c == created_by,
{
    Command::InsertRedirect {
        key: String::from_str(key),
        url: String::from_str(url),
        redirect_host: String::from_str(host),
        created_by,
    }
}

/// The statement that gives a redirect another target.
pub fn update_command(key: &str, url: &str, host: &str) -> (command: Command)
    ensures
        command matches Command::UpdateRedirectUrl { key: k, url: u, redirect_host: h } && k@
            == key@ && u@ == url@ && h@ == host@,
{
    Command::UpdateRedirectUrl {
        key: String::from_str(key),
        url: String::from_str(url),
        redirect_host: String::from_str(host),
    }
}

/// The statement that removes a redirect.
pub fn delete_command(key: &str, host: &str) -> (command: Command)
    ensures
        command matches Command::DeleteRedirect { key: k, redirect_host: h } && k@ == key@ && h@
            == host@,
{
    Command::DeleteRedirect { key: String::from_str(key), redirect_host: String::from_str(host) }
}

/// The statement that counts a visit.
pub fn visit_command(key: &str) -> (command: Command)
    ensures
        command matches Command::IncrementVisits { key: k } && k@ == key@,
{
    Command::IncrementVisits { key: String::from_str(key) }
}

/// The statement that looks a redirect up.
pub fn lookup_query(key: &str, host: &str) -> (query: RedirectQuery)
    ensures
        query matches RedirectQuery::ByKey { key: k, redirect_host: h } && k@ == key@ && h@
            == host@,
{
    RedirectQuery::ByKey { key: String::from_str(key), redirect_host: String::from_str(host) }
}

/// See [`insert_verdict`].
pub fn inserted(outcome: ExecOutcome) -> (r: Result<(), AppError>)
    ensures
        unit_outcome(r) == insert_verdict(outcome@),
{
    match outcome {
        ExecOutcome::Affected(n) => {
            if n == 1 {
                Ok(())
            } else {
                let count = u64_to_string(n);
                Err(
                    AppError {
                        kind: ErrorKind::Validation,
                        message: join("Expected 1 row to be inserted, but got ", count.as_str()),
                    },
                )
            }
        },
        ExecOutcome::Failed(failure) => {
            match failure.kind {
                FailureKind::UniqueViolation => Err(
                    AppError { kind: ErrorKind::Conflict, message: failure.message },
                ),
                FailureKind::Other => Err(
                    AppError { kind: ErrorKind::Internal, message: failure.message },
                ),
            }
        },
    }
}

/// See [`update_verdict`].
pub fn updated(outcome: ExecOutcome) -> (r: Result<(), AppError>)
    ensures
        unit_outcome(r) == update_verdict(outcome@),
{
    match outcome {
        ExecOutcome::Affected(n) => {
            if n == 1 {
                Ok(())
            } else {
                Err(AppError::new(ErrorKind::NotFound, "Failed to update redirect in database"))
            }
        },
        ExecOutcome::Failed(_) => Err(
            AppError::new(ErrorKind::Internal, "Failed to update redirect in database"),
        ),
    }
}

/// See [`one_row_verdict`].
fn one_row(outcome: ExecOutcome, message: &str) -> (r: Result<(), AppError>)
    ensures
        unit_outcome(r) == one_row_verdict(outcome@, message@),
{
    match outcome {
        ExecOutcome::Affected(n) => {
            if n == 1 {
                Ok(())
            } else if n == 0 {
                Err(AppError::new(ErrorKind::NotFound, message))
            } else {
                Err(AppError::new(ErrorKind::Validation, message))
            }
        },
        ExecOutcome::Failed(_) => Err(AppError::new(ErrorKind::Internal, message)),
    }
}

/// What the answer to a delete means, by [`one_row_verdict`].
pub fn deleted(outcome: ExecOutcome) -> (r: Result<(), AppError>)
    ensures
        unit_outcome(r) == one_row_verdict(outcome@, "Failed to delete redirect from database"@),
{
    one_row(outcome, "Failed to delete redirect from database")
}

/// What the answer to counting a visit means, by [`one_row_verdict`].
pub fn visit_counted(outcome: ExecOutcome) -> (r: Result<(), AppError>)
    ensures
        unit_outcome(r) == one_row_verdict(outcome@, "Failed to increment visits in database"@),
{
    one_row(outcome, "Failed to increment visits in database")
}

/// See [`lookup_verdict`].
pub fn looked_up(answer: RowAnswer<RedirectRow>) -> (r: Result<RedirectRow, AppError>)
    ensures
        redirect_outcome(r) == lookup_verdict(answer),
{
    match answer {
        RowAnswer::Row(row) => Ok(row),
        RowAnswer::Undecodable(message) => Err(AppError { kind: ErrorKind::Internal, message }),
        RowAnswer::NoRow => Err(
            AppError::new(ErrorKind::NotFound, "Failed to get redirect by key"),
        ),
        RowAnswer::FetchFailed(message) => Err(
            AppError {
                kind: ErrorKind::Internal,
                message: join("Failed to get redirect by key: ", message.as_str()),
            },
        ),
        RowAnswer::QueryFailed(_) => Err(
            AppError::new(ErrorKind::Internal, "Failed to get redirect from database"),
        ),
    }
}

/// Takes the next answer of the listing into account: a row joins `rows`, a
/// row that does not read is passed over, and anything else ends the
/// listing with the rows so far. Says whether the listing goes on.
pub fn listed(rows: &mut Vec<RedirectRow>, answer: RowAnswer<RedirectRow>) -> (more: bool)
    ensures
        final(rows)@ == match answer {
            RowAnswer::Row(row) => old(rows)@.push(row),
            _ => old(rows)@,
        },
        more == (answer is Row || answer is Undecodable),
{
    match answer {
        RowAnswer::Row(row) => {
            rows.push(row);
            true
        },
        RowAnswer::Undecodable(_) => true,
        _ => false,
    }
}

/// What looking up the redirect `key` of the host `host` gives.
pub open spec fn spec_get_redirect(db: DatabaseView, key: Seq<char>, host: Seq<char>) -> Outcome<
    RedirectView,
> {
    match db.redirects {
        None => Outcome::Failed(ErrorKind::Internal, "Failed to get redirect from database"@),
        Some(_) => match db.redirect_of_host(key, host) {
            Some(row) => Outcome::Done(row),
            None => Outcome::Failed(ErrorKind::NotFound, "Failed to get redirect by key"@),
        },
    }
}

/// What saving a new redirect does and gives: the insert, and where it
/// succeeds, the row as the store then holds it.
pub open spec fn spec_save_new_redirect(
    db: DatabaseView,
    key: Seq<char>,
    url: Seq<char>,
    host: Seq<char>,
    created_by: i64,
    now: i64,
) -> (DatabaseView, Outcome<RedirectView>) {
    let (after, effect) = db.insert_redirect(key, url, host, created_by, now);
    match insert_verdict(effect) {
        Outcome::Done(_) => (after, spec_get_redirect(after, key, host)),
        Outcome::Failed(kind, message) => (after, Outcome::Failed(kind, message)),
    }
}

/// What giving a redirect another target does and gives: the update, and
/// where it succeeds, the row as the store then holds it.
pub open spec fn spec_update_redirect(
    db: DatabaseView,
    key: Seq<char>,
    url: Seq<char>,
    host: Seq<char>,
) -> (DatabaseView, Outcome<RedirectView>) {
    let (after, effect) = db.update_redirect_url(key, url, host);
    match update_verdict(effect) {
        Outcome::Done(_) => (after, spec_get_redirect(after, key, host)),
        Outcome::Failed(kind, message) => (after, Outcome::Failed(kind, message)),
    }
}

/// What removing a redirect does and gives.
pub open spec fn spec_delete_redirect(db: DatabaseView, key: Seq<char>, host: Seq<char>) -> (
    DatabaseView,
    Outcome<()>,
) {
    let (after, effect) = db.delete_redirect(key, host);
    (after, one_row_verdict(effect, "Failed to delete redirect from database"@))
}

/// What counting a visit does and gives.
pub open spec fn spec_inc_visits(db: DatabaseView, key: Seq<char>) -> (DatabaseView, Outcome<()>) {
    let (after, effect) = db.increment_visits(key);
    (after, one_row_verdict(effect, "Failed to increment visits in database"@))
}

/// What listing the redirects gives: all of them, of every host, in the
/// order of the store.
pub open spec fn spec_get_all_redirects(db: DatabaseView) -> Outcome<Seq<RedirectView>> {
    match db.redirects {
        None => Outcome::Failed(ErrorKind::Internal, "Failed to list redirects from database"@),
        Some(rows) => Outcome::Done(rows),
    }
}

/// The answer of the store to a lookup: its first row, if it has one.
fn first_row(found: Result<Vec<RedirectRow>, DbFailure>) -> (answer: RowAnswer<RedirectRow>)
    ensures
        match found {
            Ok(rows) => if rows@.len() > 0 {
                answer matches RowAnswer::Row(row) && row@ == rows@[0]@
            } else {
                answer is NoRow
            },
            Err(failure) => answer matches RowAnswer::QueryFailed(message) && message@
                == failure.message@,
        },
{
    match found {
        Ok(rows) => {
            if rows.len() > 0 {
                RowAnswer::Row(rows[0].clone())
            } else {
                RowAnswer::NoRow
            }
        },
        Err(failure) => RowAnswer::QueryFailed(failure.message),
    }
}

/// Looks up the redirect `key` of the host `host`.
pub fn get_redirect(db: &Database, key: &str, host: &str) -> (r: Result<RedirectRow, AppError>)
    ensures
        redirect_outcome(r) == spec_get_redirect(db@, key@, host@),
{
    let query = lookup_query(key, host);
    let found = db.select_redirects(&query);
    proof {
        if found is Ok {
            let rows = found->Ok_0;
            assert(redirect_views(rows@).len() == rows@.len());
            if rows@.len() > 0 {
                assert(redirect_views(rows@)[0] == rows@[0]@);
            }
        }
    }
    looked_up(first_row(found))
}

/// Saves the redirect from `key` to `url` for the host `host`, made by the
/// user `created_by` at the time `now`, and gives the row as the store then
/// holds it. A key that is taken, under whatever host, is a conflict and
/// leaves the store as it was.
pub fn save_new_redirect(
    db: &mut Database,
    key: &str,
    url: &str,
    host: &str,
    created_by: i64,
    now: i64,
) -> (r: Result<RedirectRow, AppError>)
    requires
        old(db)@.wf(),
    ensures
        final(db)@.wf(),
        (final(db)@, redirect_outcome(r)) == spec_save_new_redirect(
            old(db)@,
            key@,
            url@,
            host@,
            created_by,
            now,
        ),
{
    let command = insert_command(key, url, host, created_by);
    let outcome = db.execute(&command, now);
    match inserted(outcome) {
        Ok(_) => get_redirect(db, key, host),
        Err(e) => Err(e),
    }
}

/// Gives the redirect `key` of the host `host` the target `url`, and gives
/// the row as the store then holds it. Where the host has no such redirect,
/// nothing changes.
pub fn update_redirect(db: &mut Database, key: &str, url: &str, host: &str) -> (r: Result<
    RedirectRow,
    AppError,
>)
    requires
        old(db)@.wf(),
    ensures
        final(db)@.wf(),
        (final(db)@, redirect_outcome(r)) == spec_update_redirect(old(db)@, key@, url@, host@),
{
    let command = update_command(key, url, host);
    let outcome = db.execute(&command, 0);
    match updated(outcome) {
        Ok(_) => get_redirect(db, key, host),
        Err(e) => Err(e),
    }
}

/// Removes the redirect `key` of the host `host`.
pub fn delete_redirect(db: &mut Database, key: &str, host: &str) -> (r: Result<(), AppError>)
    requires
        old(db)@.wf(),
    ensures
        final(db)@.wf(),
        (final(db)@, unit_outcome(r)) == spec_delete_redirect(old(db)@, key@, host@),
{
    let command = delete_command(key, host);
    let outcome = db.execute(&command, 0);
    deleted(outcome)
}

/// Counts one visit of the redirect `key`.
pub fn inc_visits(db: &mut Database, key: &str) -> (r: Result<(), AppError>)
    requires
        old(db)@.wf(),
    ensures
        final(db)@.wf(),
        (final(db)@, unit_outcome(r)) == spec_inc_visits(old(db)@, key@),
{
    let command = visit_command(key);
    let outcome = db.execute(&command, 0);
    visit_counted(outcome)
}

/// Lists all redirects.
pub fn get_all_redirects(db: &Database) -> (r: Result<Vec<RedirectRow>, AppError>)
    ensures
        redirects_outcome(r) == spec_get_all_redirects(db@),
{
    match db.select_redirects(&RedirectQuery::All) {
        Ok(found) => {
            let mut rows: Vec<RedirectRow> = Vec::new();
            let mut i: usize = 0;
            while i < found.len()
                invariant
                    i <= found@.len(),
                    redirect_views(rows@) == redirect_views(found@).take(i as int),
                decreases found@.len() - i,
            {
                let ghost before = rows@;
                let more = listed(&mut rows, RowAnswer::Row(found[i].clone()));
                proof {
                    assert(redirect_views(rows@) =~= redirect_views(before).push(found@[i as int]@));
                    assert(redirect_views(found@).take(i as int).push(found@[i as int]@)
                        =~= redirect_views(found@).take(i + 1));
                }
                i = i + 1;
            }
            proof {
                assert(redirect_views(found@).take(i as int) =~= redirect_views(found@));
            }
            Ok(rows)
        },
        Err(_) => Err(
            AppError::new(ErrorKind::Internal, "Failed to list redirects from database"),
        ),
    }
}

/// A redirect that is saved under a free key is there afterwards: saving
/// gives the row with the key, the target and the host it was given and no
/// visits, and looking the key up under that host gives the same row.
pub proof fn law_saved_redirect_is_found(
    db: DatabaseView,
    key: Seq<char>,
    url: Seq<char>,
    host: Seq<char>,
    created_by: i64,
    now: i64,
)
    requires
        db.wf(),
        db.ready(),
        db.redirect(key) is None,
        db.next_redirect_id < i64::MAX,
    ensures
        ({
            let (after, saved) = spec_save_new_redirect(db, key, url, host, created_by, now);
            &&& saved matches Outcome::Done(row)
            &&& row.key == key
            &&& row.url == url
            &&& row.redirect_host == host
            &&& row.visits == 0
            &&& row.created_by == created_by
            &&& spec_get_redirect(after, key, host) == saved
        }),
{
    let rows = db.redirects->0;
    let (after, effect) = db.insert_redirect(key, url, host, created_by, now);
    let new_rows = after.redirects->0;
    lemma_position(redirect_keys(rows), key);
    assert forall|j: int| 0 <= j < rows.len() implies redirect_keys(new_rows)[j] != key by {
        assert(redirect_keys(rows)[j] == rows[j].key);
    }
    lemma_position_is(redirect_keys(new_rows), key, rows.len() as int);
}

/// Saving under a key that is taken is a conflict and changes nothing.
pub proof fn law_taken_key_is_conflict(
    db: DatabaseView,
    key: Seq<char>,
    url: Seq<char>,
    host: Seq<char>,
    created_by: i64,
    now: i64,
)
    requires
        db.wf(),
        db.redirect(key) is Some,
    ensures
        ({
            let (after, saved) = spec_save_new_redirect(db, key, url, host, created_by, now);
            &&& after == db
            &&& saved matches Outcome::Failed(kind, _)
            &&& kind == ErrorKind::Conflict
        }),
{
}

/// Updating a redirect that the host does not have fails as not found and
/// changes nothing.
pub proof fn law_update_of_missing_key(
    db: DatabaseView,
    key: Seq<char>,
    url: Seq<char>,
    host: Seq<char>,
)
    requires
        db.wf(),
        db.ready(),
        db.redirect_of_host(key, host) is None,
    ensures
        ({
            let (after, updated) = spec_update_redirect(db, key, url, host);
            &&& after == db
            &&& updated matches Outcome::Failed(kind, _)
            &&& kind == ErrorKind::NotFound
        }),
{
}

/// After a redirect was deleted, whether the delete found it or not, looking
/// it up fails as not found.
pub proof fn law_deleted_redirect_is_gone(db: DatabaseView, key: Seq<char>, host: Seq<char>)
    requires
        db.wf(),
        db.ready(),
    ensures
        ({
            let (after, _) = spec_delete_redirect(db, key, host);
            &&& spec_get_redirect(after, key, host) matches Outcome::Failed(kind, _)
            &&& kind == ErrorKind::NotFound
        }),
{
    let rows = db.redirects->0;
    let (after, _) = spec_delete_redirect(db, key, host);
    lemma_position(redirect_keys(rows), key);
    if db.redirect_of_host(key, host) is Some {
        let at = position(redirect_keys(rows), key);
        let new_rows = after.redirects->0;
        assert forall|j: int| 0 <= j < new_rows.len() implies redirect_keys(new_rows)[j]
            != key by {
            let from = if j < at {
                j
            } else {
                j + 1
            };
            assert(redirect_keys(rows)[from] == new_rows[j].key);
            assert(redirect_keys(rows)[at] == key);
        }
        lemma_position_is(redirect_keys(new_rows), key, new_rows.len() as int);
    }
}

/// Counting a visit of a redirect that is there adds exactly one to its
/// visits and leaves every other redirect as it was.
pub proof fn law_visit_counts_once(db: DatabaseView, key: Seq<char>, other: Seq<char>)
    requires
        db.wf(),
        db.redirect(key) is Some,
        db.redirect(key)->0.visits < u64::MAX,
        other != key,
    ensures
        ({
            let (after, counted) = spec_inc_visits(db, key);
            &&& counted == Outcome::Done(())
            &&& after.redirect(key) == Some(
                RedirectView {
                    visits: (db.redirect(key)->0.visits + 1) as u64,
                    ..db.redirect(key)->0
                },
            )
            &&& after.redirect(other) == db.redirect(other)
        }),
{
    let rows = db.redirects->0;
    let (after, _) = spec_inc_visits(db, key);
    let new_rows = after.redirects->0;
    lemma_position(redirect_keys(rows), key);
    lemma_position(redirect_keys(rows), other);
    assert(redirect_keys(new_rows) =~= redirect_keys(rows));
}

} // verus!
