//! The store: the statements that the service sends to its database, what
//! comes back, and a model of the two tables that says what each statement
//! does.
//!
//! The service keeps its rows in an SQL database that it reaches over the
//! network. This module holds the part of that which is plain data: every
//! statement as a value with its SQL text and its parameters, and the answer
//! of the database as a value. [`Database`] is the two tables in memory. It
//! carries out the same statements and is what the contracts of the
//! operations on rows are stated over.

use crate::error::{AppError, ErrorKind};
use crate::models::redirect::{redirect_views, RedirectRow, RedirectView};
use crate::models::user::{user_views, UserRow, UserView};
use vstd::prelude::*;
use vstd::string::*;

verus! {

/// A value bound to a parameter of a statement.
#[derive(Debug)]
pub enum SqlValue {
    Text(String),
    Integer(i64),
}

/// A value bound to a parameter, as contracts speak of it.
pub enum SqlValueView {
    Text(Seq<char>),
    Integer(i64),
}

impl View for SqlValue {
    type V = SqlValueView;

    open spec fn view(&self) -> SqlValueView {
        match self {
            SqlValue::Text(text) => SqlValueView::Text(text@),
            SqlValue::Integer(n) => SqlValueView::Integer(*n),
        }
    }
}

/// A named parameter of a statement with the value bound to it.
#[derive(Debug)]
pub struct Param {
    pub name: String,
    pub value: SqlValue,
}

impl View for Param {
    type V = (Seq<char>, SqlValueView);

    open spec fn view(&self) -> (Seq<char>, SqlValueView) {
        (self.name@, self.value@)
    }
}

/// The views of a sequence of parameters.
pub open spec fn param_views(params: Seq<Param>) -> Seq<(Seq<char>, SqlValueView)> {
    params.map_values(|p: Param| p@)
}

/// A parameter that binds the text `value` to `name`.
fn text_param(name: &str, value: &String) -> (p: Param)
    ensures
        p@ == (name@, SqlValueView::Text(value@)),
{
    Param { name: String::from_str(name), value: SqlValue::Text(value.clone()) }
}

/// A parameter that binds the number `value` to `name`.
fn integer_param(name: &str, value: i64) -> (p: Param)
    ensures
        p@ == (name@, SqlValueView::Integer(value)),
{
    Param { name: String::from_str(name), value: SqlValue::Integer(value) }
}

/// A statement that changes the database.
#[derive(Debug)]
pub enum Command {
    /// Creates the table `redirects` unless it exists.
    CreateRedirectsTable,
    /// Creates the index on the keys of `redirects` unless it exists.
    CreateRedirectsIndex,
    /// Creates the table `users` unless it exists.
    CreateUsersTable,
    /// Creates the index on the Discord ids of `users` unless it exists.
    CreateUsersIndex,
    /// Inserts a redirect with no visits.
    InsertRedirect { key: String, url: String, redirect_host: String, created_by: i64 },
    /// Gives the redirect `key` of the host `redirect_host` another target.
    UpdateRedirectUrl { key: String, url: String, redirect_host: String },
    /// Removes the redirect `key` of the host `redirect_host`.
    DeleteRedirect { key: String, redirect_host: String },
    /// Counts one more visit of the redirect `key`.
    IncrementVisits { key: String },
    /// Inserts the user, or renames the one that has the Discord id already.
    UpsertUser { discord_snowflake: String, discord_username: String },
}

impl Command {
    /// The SQL text of the statement.
    pub open spec fn spec_sql(self) -> Seq<char> {
        match self {
            Command::CreateRedirectsTable =>
                "CREATE TABLE IF NOT EXISTS redirects (id INTEGER PRIMARY KEY, key TEXT UNIQUE, url TEXT, redirect_host TEXT, visits INTEGER DEFAULT 0, created_by INTEGER, created_utc REAL DEFAULT (strftime('%Y-%m-%d %H:%M:%S', 'now')), updated_utc REAL DEFAULT (strftime('%Y-%m-%d %H:%M:%S', 'now')), FOREIGN KEY(created_by) REFERENCES users(id))"@,
            Command::CreateRedirectsIndex => "CREATE INDEX IF NOT EXISTS idx_key ON redirects(key)"@,
            Command::CreateUsersTable =>
                "CREATE TABLE IF NOT EXISTS users (id INTEGER PRIMARY KEY, discord_snowflake TEXT UNIQUE, discord_username TEXT, created_utc REAL DEFAULT (strftime('%Y-%m-%d %H:%M:%S', 'now')), updated_utc REAL DEFAULT (strftime('%Y-%m-%d %H:%M:%S', 'now')))"@,
            Command::CreateUsersIndex =>
                "CREATE INDEX IF NOT EXISTS idx_discord_snowflake ON users(discord_snowflake)"@,
            Command::InsertRedirect { .. } =>
                "insert into redirects (key, url, redirect_host, created_by) values (:key, :url, :redirect_host, :created_by)"@,
            Command::UpdateRedirectUrl { .. } =>
                "update redirects set url = :url where key = :key and redirect_host = :redirect_host"@,
            Command::DeleteRedirect { .. } =>
                "DELETE FROM redirects WHERE key = :key AND redirect_host = :redirect_host"@,
            Command::IncrementVisits { .. } =>
                "update redirects set visits = visits + 1 where key = :key"@,
            Command::UpsertUser { .. } =>
                "INSERT INTO users (discord_snowflake, discord_username) VALUES (:discord_snowflake, :discord_username) ON CONFLICT(discord_snowflake) DO UPDATE SET discord_username = excluded.discord_username, updated_utc = (strftime('%Y-%m-%d %H:%M:%S', 'now'))"@,
        }
    }

    /// The SQL text of the statement.
    pub fn sql(&self) -> (text: String)
        ensures
            text@ == self.spec_sql(),
    {
        match self {
            Command::CreateRedirectsTable => String::from_str(
                "CREATE TABLE IF NOT EXISTS redirects (id INTEGER PRIMARY KEY, key TEXT UNIQUE, url TEXT, redirect_host TEXT, visits INTEGER DEFAULT 0, created_by INTEGER, created_utc REAL DEFAULT (strftime('%Y-%m-%d %H:%M:%S', 'now')), updated_utc REAL DEFAULT (strftime('%Y-%m-%d %H:%M:%S', 'now')), FOREIGN KEY(created_by) REFERENCES users(id))",
            ),
            Command::CreateRedirectsIndex => String::from_str(
                "CREATE INDEX IF NOT EXISTS idx_key ON redirects(key)",
            ),
            Command::CreateUsersTable => String::from_str(
                "CREATE TABLE IF NOT EXISTS users (id INTEGER PRIMARY KEY, discord_snowflake TEXT UNIQUE, discord_username TEXT, created_utc REAL DEFAULT (strftime('%Y-%m-%d %H:%M:%S', 'now')), updated_utc REAL DEFAULT (strftime('%Y-%m-%d %H:%M:%S', 'now')))",
            ),
            Command::CreateUsersIndex => String::from_str(
                "CREATE INDEX IF NOT EXISTS idx_discord_snowflake ON users(discord_snowflake)",
            ),
            Command::InsertRedirect { .. } => String::from_str(
                "insert into redirects (key, url, redirect_host, created_by) values (:key, :url, :redirect_host, :created_by)",
            ),
            Command::UpdateRedirectUrl { .. } => String::from_str(
                "update redirects set url = :url where key = :key and redirect_host = :redirect_host",
            ),
            Command::DeleteRedirect { .. } => String::from_str(
                "DELETE FROM redirects WHERE key = :key AND redirect_host = :redirect_host",
            ),
            Command::IncrementVisits { .. } => String::from_str(
                "update redirects set visits = visits + 1 where key = :key",
            ),
            Command::UpsertUser { .. } => String::from_str(
                "INSERT INTO users (discord_snowflake, discord_username) VALUES (:discord_snowflake, :discord_username) ON CONFLICT(discord_snowflake) DO UPDATE SET discord_username = excluded.discord_username, updated_utc = (strftime('%Y-%m-%d %H:%M:%S', 'now'))",
            ),
        }
    }

    /// The parameters of the statement, by name, in the order in which the
    /// SQL text first mentions them.
    pub open spec fn spec_params(self) -> Seq<(Seq<char>, SqlValueView)> {
        match self {
            Command::InsertRedirect { key, url, redirect_host, created_by } => seq![
                (":key"@, SqlValueView::Text(key@)),
                (":url"@, SqlValueView::Text(url@)),
                (":redirect_host"@, SqlValueView::Text(redirect_host@)),
                (":created_by"@, SqlValueView::Integer(created_by)),
            ],
            Command::UpdateRedirectUrl { key, url, redirect_host } => seq![
                (":url"@, SqlValueView::Text(url@)),
                (":key"@, SqlValueView::Text(key@)),
                (":redirect_host"@, SqlValueView::Text(redirect_host@)),
            ],
            Command::DeleteRedirect { key, redirect_host } => seq![
                (":key"@, SqlValueView::Text(key@)),
                (":redirect_host"@, SqlValueView::Text(redirect_host@)),
            ],
            Command::IncrementVisits { key } => seq![(":key"@, SqlValueView::Text(key@))],
            Command::UpsertUser { discord_snowflake, discord_username } => seq![
                (":discord_snowflake"@, SqlValueView::Text(discord_snowflake@)),
                (":discord_username"@, SqlValueView::Text(discord_username@)),
            ],
            _ => Seq::empty(),
        }
    }

    /// See [`Command::spec_params`].
    pub fn params(&self) -> (params: Vec<Param>)
        ensures
            param_views(params@) == self.spec_params(),
    {
        let mut params: Vec<Param> = Vec::new();
        match self {
            Command::InsertRedirect { key, url, redirect_host, created_by } => {
                params.push(text_param(":key", key));
                params.push(text_param(":url", url));
                params.push(text_param(":redirect_host", redirect_host));
                params.push(integer_param(":created_by", *created_by));
            },
            Command::UpdateRedirectUrl { key, url, redirect_host } => {
                params.push(text_param(":url", url));
                params.push(text_param(":key", key));
                params.push(text_param(":redirect_host", redirect_host));
            },
            Command::DeleteRedirect { key, redirect_host } => {
                params.push(text_param(":key", key));
                params.push(text_param(":redirect_host", redirect_host));
            },
            Command::IncrementVisits { key } => {
                params.push(text_param(":key", key));
            },
            Command::UpsertUser { discord_snowflake, discord_username } => {
                params.push(text_param(":discord_snowflake", discord_snowflake));
                params.push(text_param(":discord_username", discord_username));
            },
            _ => {},
        }
        assert(param_views(params@) =~= self.spec_params());
        params
    }
}

/// A statement that reads redirects.
#[derive(Debug)]
pub enum RedirectQuery {
    /// The redirect `key` of the host `redirect_host`.
    ByKey { key: String, redirect_host: String },
    /// Every redirect, of every host.
    All,
}

impl RedirectQuery {
    /// The SQL text of the statement.
    pub open spec fn spec_sql(self) -> Seq<char> {
        match self {
            RedirectQuery::ByKey { .. } =>
                "SELECT * FROM redirects WHERE key = :key AND redirect_host = :redirect_host LIMIT 1"@,
            RedirectQuery::All => "select * from redirects"@,
        }
    }

    /// The SQL text of the statement.
    pub fn sql(&self) -> (text: String)
        ensures
            text@ == self.spec_sql(),
    {
        match self {
            RedirectQuery::ByKey { .. } => String::from_str(
                "SELECT * FROM redirects WHERE key = :key AND redirect_host = :redirect_host LIMIT 1",
            ),
            RedirectQuery::All => String::from_str("select * from redirects"),
        }
    }

    /// The parameters of the statement, by name.
    pub open spec fn spec_params(self) -> Seq<(Seq<char>, SqlValueView)> {
        match self {
            RedirectQuery::ByKey { key, redirect_host } => seq![
                (":key"@, SqlValueView::Text(key@)),
                (":redirect_host"@, SqlValueView::Text(redirect_host@)),
            ],
            RedirectQuery::All => Seq::empty(),
        }
    }

    /// See [`RedirectQuery::spec_params`].
    pub fn params(&self) -> (params: Vec<Param>)
        ensures
            param_views(params@) == self.spec_params(),
    {
        let mut params: Vec<Param> = Vec::new();
        match self {
            RedirectQuery::ByKey { key, redirect_host } => {
                params.push(text_param(":key", key));
                params.push(text_param(":redirect_host", redirect_host));
            },
            RedirectQuery::All => {},
        }
        assert(param_views(params@) =~= self.spec_params());
        params
    }
}

/// A statement that reads users.
#[derive(Debug)]
pub enum UserQuery {
    /// The user with the Discord id `discord_snowflake`.
    ByDiscordId { discord_snowflake: String },
}

impl UserQuery {
    /// The SQL text of the statement.
    pub open spec fn spec_sql(self) -> Seq<char> {
        "SELECT * FROM users WHERE discord_snowflake = :discord_snowflake LIMIT 1"@
    }

    /// The SQL text of the statement.
    pub fn sql(&self) -> (text: String)
        ensures
            text@ == self.spec_sql(),
    {
        String::from_str("SELECT * FROM users WHERE discord_snowflake = :discord_snowflake LIMIT 1")
    }

    /// The parameters of the statement, by name.
    pub open spec fn spec_params(self) -> Seq<(Seq<char>, SqlValueView)> {
        match self {
            UserQuery::ByDiscordId { discord_snowflake } => seq![
                (":discord_snowflake"@, SqlValueView::Text(discord_snowflake@)),
            ],
        }
    }

    /// See [`UserQuery::spec_params`].
    pub fn params(&self) -> (params: Vec<Param>)
        ensures
            param_views(params@) == self.spec_params(),
    {
        let mut params: Vec<Param> = Vec::new();
        match self {
            UserQuery::ByDiscordId { discord_snowflake } => {
                params.push(text_param(":discord_snowflake", discord_snowflake));
            },
        }
        assert(param_views(params@) =~= self.spec_params());
        params
    }
}

/// How a statement failed, as far as the service tells failures apart.
#[derive(Debug, PartialEq, Eq, Structural, Clone, Copy)]
pub enum FailureKind {
    /// A unique constraint forbids the row.
    UniqueViolation,
    /// Any other failure.
    Other,
}

/// A failure that the database reports.
#[derive(Debug)]
pub struct DbFailure {
    pub kind: FailureKind,
    pub message: String,
}

/// What the database answers to a [`Command`].
#[derive(Debug)]
pub enum ExecOutcome {
    /// The statement ran and changed this many rows.
    Affected(u64),
    /// The statement failed and changed nothing.
    Failed(DbFailure),
}

/// What the database answers to a [`Command`], as contracts speak of it.
pub enum Effect {
    Affected(u64),
    Failed(FailureKind, Seq<char>),
}

impl View for ExecOutcome {
    type V = Effect;

    open spec fn view(&self) -> Effect {
        match self {
            ExecOutcome::Affected(n) => Effect::Affected(*n),
            ExecOutcome::Failed(failure) => Effect::Failed(failure.kind, failure.message@),
        }
    }
}

/// What the database answers when it is asked for the next row of a query.
#[derive(Debug)]
pub enum RowAnswer<T> {
    /// The next row.
    Row(T),
    /// There is a next row, but it does not read as a row of its table.
    Undecodable(String),
    /// There is no further row.
    NoRow,
    /// Fetching the next row failed.
    FetchFailed(String),
    /// The query itself failed.
    QueryFailed(String),
}

/// The position of the first `key` among `keys`, or their number where it is
/// not among them.
pub open spec fn position(keys: Seq<Seq<char>>, key: Seq<char>) -> int
    decreases keys.len(),
{
    if keys.len() == 0 || keys[0] == key {
        0
    } else {
        1 + position(keys.skip(1), key)
    }
}

/// No two of `keys` are equal.
pub open spec fn distinct(keys: Seq<Seq<char>>) -> bool {
    forall|i: int, j: int| 0 <= i < j < keys.len() ==> keys[i] != keys[j]
}

/// `position` lies within bounds, points at `key` where it points at
/// anything, and passes over nothing that equals `key`.
pub proof fn lemma_position(keys: Seq<Seq<char>>, key: Seq<char>)
    ensures
        0 <= position(keys, key) <= keys.len(),
        position(keys, key) < keys.len() ==> keys[position(keys, key)] == key,
        forall|j: int| 0 <= j < position(keys, key) ==> keys[j] != key,
    decreases keys.len(),
{
    if keys.len() == 0 || keys[0] == key {
    } else {
        let rest = keys.skip(1);
        lemma_position(rest, key);
        assert forall|j: int| 0 <= j < position(keys, key) implies keys[j] != key by {
            if j > 0 {
                assert(rest[j - 1] == keys[j]);
            }
        }
    }
}

/// `position` is `k` where `k` is the first place that holds `key`, or the
/// end where none does.
pub proof fn lemma_position_is(keys: Seq<Seq<char>>, key: Seq<char>, k: int)
    requires
        0 <= k <= keys.len(),
        forall|j: int| 0 <= j < k ==> keys[j] != key,
        k < keys.len() ==> keys[k] == key,
    ensures
        position(keys, key) == k,
{
    lemma_position(keys, key);
}

/// The keys of a sequence of redirects.
pub open spec fn redirect_keys(rows: Seq<RedirectView>) -> Seq<Seq<char>> {
    rows.map_values(|row: RedirectView| row.key)
}

/// The Discord ids of a sequence of users.
pub open spec fn user_keys(rows: Seq<UserView>) -> Seq<Seq<char>> {
    rows.map_values(|row: UserView| row.discord_snowflake)
}

/// The two tables as contracts speak of them. A table that has not been
/// created is `None`.
pub struct DatabaseView {
    pub redirects: Option<Seq<RedirectView>>,
    pub users: Option<Seq<UserView>>,
    /// The id that the next redirect gets.
    pub next_redirect_id: i64,
    /// The id that the next user gets.
    pub next_user_id: i64,
}

impl DatabaseView {
    /// A database without tables.
    pub open spec fn empty() -> DatabaseView {
        DatabaseView { redirects: None, users: None, next_redirect_id: 1, next_user_id: 1 }
    }

    /// The invariant of the data: a key identifies at most one redirect and
    /// a Discord id at most one user, and every id was handed out before the
    /// next one.
    pub open spec fn wf(self) -> bool {
        &&& self.redirects matches Some(rows) ==> {
            &&& distinct(redirect_keys(rows))
            &&& forall|i: int| 0 <= i < rows.len() ==> (#[trigger] rows[i]).id < self.next_redirect_id
        }
        &&& self.users matches Some(rows) ==> {
            &&& distinct(user_keys(rows))
            &&& forall|i: int| 0 <= i < rows.len() ==> (#[trigger] rows[i]).id < self.next_user_id
        }
    }

    /// Both tables exist.
    pub open spec fn ready(self) -> bool {
        self.redirects is Some && self.users is Some
    }

    /// The redirect with the key `key`, whatever its host.
    pub open spec fn redirect(self, key: Seq<char>) -> Option<RedirectView> {
        match self.redirects {
            Some(rows) => {
                let at = position(redirect_keys(rows), key);
                if at < rows.len() {
                    Some(rows[at])
                } else {
                    None
                }
            },
            None => None,
        }
    }

    /// The redirect with the key `key` of the host `host`.
    pub open spec fn redirect_of_host(self, key: Seq<char>, host: Seq<char>) -> Option<
        RedirectView,
    > {
        match self.redirect(key) {
            Some(row) => if row.redirect_host == host {
                Some(row)
            } else {
                None
            },
            None => None,
        }
    }

    /// The user with the Discord id `discord_snowflake`.
    pub open spec fn user(self, discord_snowflake: Seq<char>) -> Option<UserView> {
        match self.users {
            Some(rows) => {
                let at = position(user_keys(rows), discord_snowflake);
                if at < rows.len() {
                    Some(rows[at])
                } else {
                    None
                }
            },
            None => None,
        }
    }

    /// What inserting a redirect does: it fails on a key that is taken, and
    /// else adds the row, without visits and with `now` as both its times.
    pub open spec fn insert_redirect(
        self,
        key: Seq<char>,
        url: Seq<char>,
        host: Seq<char>,
        created_by: i64,
        now: i64,
    ) -> (DatabaseView, Effect) {
        match self.redirects {
            None => (self, Effect::Failed(FailureKind::Other, "no such table: redirects"@)),
            Some(rows) => if self.redirect(key) is Some {
                (
                    self,
                    Effect::Failed(
                        FailureKind::UniqueViolation,
                        "UNIQUE constraint failed: redirects.key"@,
                    ),
                )
            } else if self.next_redirect_id == i64::MAX {
                (self, Effect::Failed(FailureKind::Other, "database or disk is full"@))
            } else {
                let row = RedirectView {
                    id: self.next_redirect_id,
                    key,
                    url,
                    redirect_host: host,
                    visits: 0,
                    created_by,
                    created_utc: now,
                    updated_utc: now,
                };
                (
                    DatabaseView {
                        redirects: Some(rows.push(row)),
                        next_redirect_id: (self.next_redirect_id + 1) as i64,
                        ..self
                    },
                    Effect::Affected(1),
                )
            },
        }
    }

    /// What updating the target of a redirect does: the row of that key and
    /// host gets the new URL, and nothing else changes.
    pub open spec fn update_redirect_url(self, key: Seq<char>, url: Seq<char>, host: Seq<char>) -> (
        DatabaseView,
        Effect,
    ) {
        match self.redirects {
            None => (self, Effect::Failed(FailureKind::Other, "no such table: redirects"@)),
            Some(rows) => match self.redirect_of_host(key, host) {
                Some(row) => (
                    DatabaseView {
                        redirects: Some(
                            rows.update(
                                position(redirect_keys(rows), key),
                                RedirectView { url, ..row },
                            ),
                        ),
                        ..self
                    },
                    Effect::Affected(1),
                ),
                None => (self, Effect::Affected(0)),
            },
        }
    }

    /// What deleting a redirect does: the row of that key and host leaves.
    pub open spec fn delete_redirect(self, key: Seq<char>, host: Seq<char>) -> (
        DatabaseView,
        Effect,
    ) {
        match self.redirects {
            None => (self, Effect::Failed(FailureKind::Other, "no such table: redirects"@)),
            Some(rows) => match self.redirect_of_host(key, host) {
                Some(row) => (
                    DatabaseView {
                        redirects: Some(rows.remove(position(redirect_keys(rows), key))),
                        ..self
                    },
                    Effect::Affected(1),
                ),
                None => (self, Effect::Affected(0)),
            },
        }
    }

    /// What counting a visit does: the row of that key has one visit more.
    /// A count that cannot grow makes the statement fail.
    pub open spec fn increment_visits(self, key: Seq<char>) -> (DatabaseView, Effect) {
        match self.redirects {
            None => (self, Effect::Failed(FailureKind::Other, "no such table: redirects"@)),
            Some(rows) => match self.redirect(key) {
                Some(row) => if row.visits == u64::MAX {
                    (self, Effect::Failed(FailureKind::Other, "integer overflow"@))
                } else {
                    (
                        DatabaseView {
                            redirects: Some(
                                rows.update(
                                    position(redirect_keys(rows), key),
                                    RedirectView { visits: (row.visits + 1) as u64, ..row },
                                ),
                            ),
                            ..self
                        },
                        Effect::Affected(1),
                    )
                },
                None => (self, Effect::Affected(0)),
            },
        }
    }

    /// What upserting a user does: the user with that Discord id gets the
    /// name and `now` as the time of the update; where there is none, a new
    /// one is added with `now` as both times.
    pub open spec fn upsert_user(self, discord_snowflake: Seq<char>, username: Seq<char>, now: i64) -> (
        DatabaseView,
        Effect,
    ) {
        match self.users {
            None => (self, Effect::Failed(FailureKind::Other, "no such table: users"@)),
            Some(rows) => match self.user(discord_snowflake) {
                Some(row) => (
                    DatabaseView {
                        users: Some(
                            rows.update(
                                position(user_keys(rows), discord_snowflake),
                                UserView { discord_username: username, updated_utc: now, ..row },
                            ),
                        ),
                        ..self
                    },
                    Effect::Affected(1),
                ),
                None => if self.next_user_id == i64::MAX {
                    (self, Effect::Failed(FailureKind::Other, "database or disk is full"@))
                } else {
                    let row = UserView {
                        id: self.next_user_id,
                        discord_snowflake,
                        discord_username: username,
                        created_utc: now,
                        updated_utc: now,
                    };
                    (
                        DatabaseView {
                            users: Some(rows.push(row)),
                            next_user_id: (self.next_user_id + 1) as i64,
                            ..self
                        },
                        Effect::Affected(1),
                    )
                },
            },
        }
    }

    /// What a [`Command`] does at the time `now`: the database after it, and
    /// the answer.
    pub open spec fn run(self, command: Command, now: i64) -> (DatabaseView, Effect) {
        match command {
            Command::CreateRedirectsTable => (
                DatabaseView {
                    redirects: match self.redirects {
                        Some(rows) => Some(rows),
                        None => Some(Seq::empty()),
                    },
                    ..self
                },
                Effect::Affected(0),
            ),
            Command::CreateRedirectsIndex => if self.redirects is Some {
                (self, Effect::Affected(0))
            } else {
                (self, Effect::Failed(FailureKind::Other, "no such table: main.redirects"@))
            },
            Command::CreateUsersTable => (
                DatabaseView {
                    users: match self.users {
                        Some(rows) => Some(rows),
                        None => Some(Seq::empty()),
                    },
                    ..self
                },
                Effect::Affected(0),
            ),
            Command::CreateUsersIndex => if self.users is Some {
                (self, Effect::Affected(0))
            } else {
                (self, Effect::Failed(FailureKind::Other, "no such table: main.users"@))
            },
            Command::InsertRedirect { key, url, redirect_host, created_by } => self.insert_redirect(
                key@,
                url@,
                redirect_host@,
                created_by,
                now,
            ),
            Command::UpdateRedirectUrl { key, url, redirect_host } => self.update_redirect_url(
                key@,
                url@,
                redirect_host@,
            ),
            Command::DeleteRedirect { key, redirect_host } => self.delete_redirect(
                key@,
                redirect_host@,
            ),
            Command::IncrementVisits { key } => self.increment_visits(key@),
            Command::UpsertUser { discord_snowflake, discord_username } => self.upsert_user(
                discord_snowflake@,
                discord_username@,
                now,
            ),
        }
    }

    /// The rows that a [`RedirectQuery`] finds, or the message of the
    /// failure.
    pub open spec fn select_redirects(self, query: RedirectQuery) -> Result<
        Seq<RedirectView>,
        Seq<char>,
    > {
        match self.redirects {
            None => Err("no such table: redirects"@),
            Some(rows) => match query {
                RedirectQuery::ByKey { key, redirect_host } => match self.redirect_of_host(
                    key@,
                    redirect_host@,
                ) {
                    Some(row) => Ok(seq![row]),
                    None => Ok(Seq::empty()),
                },
                RedirectQuery::All => Ok(rows),
            },
        }
    }

    /// The rows that a [`UserQuery`] finds, or the message of the failure.
    pub open spec fn select_users(self, query: UserQuery) -> Result<Seq<UserView>, Seq<char>> {
        match self.users {
            None => Err("no such table: users"@),
            Some(rows) => match query {
                UserQuery::ByDiscordId { discord_snowflake } => match self.user(
                    discord_snowflake@,
                ) {
                    Some(row) => Ok(seq![row]),
                    None => Ok(Seq::empty()),
                },
            },
        }
    }
}

/// Every statement keeps the invariant of the data: after it, a key still
/// identifies at most one redirect and a Discord id at most one user.
pub proof fn lemma_run_keeps_invariant(db: DatabaseView, command: Command, now: i64)
    requires
        db.wf(),
    ensures
        db.run(command, now).0.wf(),
{
    let after = db.run(command, now).0;
    match command {
        Command::InsertRedirect { key, .. } => {
            if db.redirects is Some && after != db {
                let rows = db.redirects->0;
                let new_rows = after.redirects->0;
                lemma_position(redirect_keys(rows), key@);
                assert forall|i: int, j: int| 0 <= i < j < new_rows.len() implies redirect_keys(
                    new_rows,
                )[i] != redirect_keys(new_rows)[j] by {
                    assert(redirect_keys(rows)[i] == rows[i].key);
                    if j < rows.len() {
                        assert(redirect_keys(rows)[j] == rows[j].key);
                    }
                }
            }
        },
        Command::UpdateRedirectUrl { key, .. } => {
            if db.redirects is Some && after != db {
                let rows = db.redirects->0;
                lemma_position(redirect_keys(rows), key@);
                assert(redirect_keys(after.redirects->0) =~= redirect_keys(rows));
            }
        },
        Command::IncrementVisits { key } => {
            if db.redirects is Some && after != db {
                let rows = db.redirects->0;
                lemma_position(redirect_keys(rows), key@);
                assert(redirect_keys(after.redirects->0) =~= redirect_keys(rows));
            }
        },
        Command::DeleteRedirect { key, .. } => {
            if db.redirects is Some && after != db {
                let rows = db.redirects->0;
                let at = position(redirect_keys(rows), key@);
                lemma_position(redirect_keys(rows), key@);
                let new_rows = after.redirects->0;
                assert forall|i: int, j: int| 0 <= i < j < new_rows.len() implies redirect_keys(
                    new_rows,
                )[i] != redirect_keys(new_rows)[j] by {
                    let from_i = if i < at {
                        i
                    } else {
                        i + 1
                    };
                    let from_j = if j < at {
                        j
                    } else {
                        j + 1
                    };
                    assert(redirect_keys(rows)[from_i] == new_rows[i].key);
                    assert(redirect_keys(rows)[from_j] == new_rows[j].key);
                }
                assert forall|i: int| 0 <= i < new_rows.len() implies (#[trigger] new_rows[i]).id
                    < after.next_redirect_id by {
                    let from_i = if i < at {
                        i
                    } else {
                        i + 1
                    };
                    assert(new_rows[i] == rows[from_i]);
                }
            }
        },
        Command::UpsertUser { discord_snowflake, .. } => {
            if db.users is Some && after != db {
                let rows = db.users->0;
                let new_rows = after.users->0;
                lemma_position(user_keys(rows), discord_snowflake@);
                if db.user(discord_snowflake@) is Some {
                    assert(user_keys(new_rows) =~= user_keys(rows));
                } else {
                    assert forall|i: int, j: int| 0 <= i < j < new_rows.len() implies user_keys(
                        new_rows,
                    )[i] != user_keys(new_rows)[j] by {
                        assert(user_keys(rows)[i] == rows[i].discord_snowflake);
                        if j < rows.len() {
                            assert(user_keys(rows)[j] == rows[j].discord_snowflake);
                        }
                    }
                }
            }
        },
        _ => {
            assert(distinct(redirect_keys(Seq::empty())));
            assert(distinct(user_keys(Seq::empty())));
        },
    }
}

/// No statement makes the visits of a redirect fewer: a redirect that is
/// there before and after has at least as many visits after.
pub proof fn law_visits_never_decrease(
    db: DatabaseView,
    command: Command,
    now: i64,
    key: Seq<char>,
)
    requires
        db.wf(),
        db.redirect(key) is Some,
        db.run(command, now).0.redirect(key) is Some,
    ensures
        db.run(command, now).0.redirect(key)->0.visits >= db.redirect(key)->0.visits,
{
    let after = db.run(command, now).0;
    let rows = db.redirects->0;
    let new_rows = after.redirects->0;
    let at = position(redirect_keys(rows), key);
    lemma_position(redirect_keys(rows), key);
    lemma_position(redirect_keys(new_rows), key);
    lemma_run_keeps_invariant(db, command, now);
    if after != db {
        match command {
            Command::InsertRedirect { .. } => {
                assert(redirect_keys(new_rows)[at] == rows[at].key);
                lemma_position_is(redirect_keys(new_rows), key, at);
            },
            Command::UpdateRedirectUrl { key: changed, .. } => {
                lemma_position(redirect_keys(rows), changed@);
                assert(redirect_keys(new_rows) =~= redirect_keys(rows));
            },
            Command::IncrementVisits { key: changed } => {
                lemma_position(redirect_keys(rows), changed@);
                assert(redirect_keys(new_rows) =~= redirect_keys(rows));
            },
            Command::DeleteRedirect { key: gone, .. } => {
                let lost = position(redirect_keys(rows), gone@);
                lemma_position(redirect_keys(rows), gone@);
                let found = position(redirect_keys(new_rows), key);
                let from = if found < lost {
                    found
                } else {
                    found + 1
                };
                assert(new_rows[found] == rows[from]);
                assert(redirect_keys(rows)[from] == key);
                assert(redirect_keys(rows)[at] == key);
                assert(from == at);
            },
            _ => {},
        }
    }
}

/// The two tables in memory. It carries out the statements of the service
/// as [`DatabaseView::run`] says, and stands for the database wherever the
/// operations on rows are stated, proved and tried.
pub struct Database {
    redirects: Vec<RedirectRow>,
    redirects_created: bool,
    users: Vec<UserRow>,
    users_created: bool,
    next_redirect_id: i64,
    next_user_id: i64,
}

impl View for Database {
    type V = DatabaseView;

    closed spec fn view(&self) -> DatabaseView {
        DatabaseView {
            redirects: if self.redirects_created {
                Some(redirect_views(self.redirects@))
            } else {
                None
            },
            users: if self.users_created {
                Some(user_views(self.users@))
            } else {
                None
            },
            next_redirect_id: self.next_redirect_id,
            next_user_id: self.next_user_id,
        }
    }
}

/// The answer that reports a failure.
fn failed(kind: FailureKind, message: &str) -> (out: ExecOutcome)
    ensures
        out@ == Effect::Failed(kind, message@),
{
    ExecOutcome::Failed(DbFailure { kind, message: String::from_str(message) })
}

/// The rows that a query found, as contracts speak of them.
pub open spec fn found_redirects(r: Result<Vec<RedirectRow>, DbFailure>) -> Result<
    Seq<RedirectView>,
    Seq<char>,
> {
    match r {
        Ok(rows) => Ok(redirect_views(rows@)),
        Err(failure) => Err(failure.message@),
    }
}

/// The rows that a query found, as contracts speak of them.
pub open spec fn found_users(r: Result<Vec<UserRow>, DbFailure>) -> Result<
    Seq<UserView>,
    Seq<char>,
> {
    match r {
        Ok(rows) => Ok(user_views(rows@)),
        Err(failure) => Err(failure.message@),
    }
}

impl Database {
    /// A database without tables.
    pub fn new() -> (db: Database)
        ensures
            db@ == DatabaseView::empty(),
            db@.wf(),
    {
        Database {
            redirects: Vec::new(),
            redirects_created: false,
            users: Vec::new(),
            users_created: false,
            next_redirect_id: 1,
            next_user_id: 1,
        }
    }

    /// Where the redirect `key` stands among the rows.
    fn find_redirect(&self, key: &String) -> (at: usize)
        ensures
            at == position(redirect_keys(redirect_views(self.redirects@)), key@),
            at <= self.redirects@.len(),
            at < self.redirects@.len() ==> self.redirects@[at as int].key@ == key@,
    {
        let ghost keys = redirect_keys(redirect_views(self.redirects@));
        let mut at: usize = 0;
        while at < self.redirects.len()
            invariant
                at <= self.redirects@.len(),
                keys == redirect_keys(redirect_views(self.redirects@)),
                forall|j: int| 0 <= j < at ==> keys[j] != key@,
            decreases self.redirects@.len() - at,
        {
            if self.redirects[at].key == *key {
                proof {
                    assert(keys[at as int] == key@);
                    lemma_position_is(keys, key@, at as int);
                }
                return at;
            }
            proof {
                assert(keys[at as int] == self.redirects@[at as int].key@);
            }
            at = at + 1;
        }
        proof {
            lemma_position_is(keys, key@, at as int);
        }
        at
    }

    /// Where the user with the Discord id `discord_snowflake` stands among
    /// the rows.
    fn find_user(&self, discord_snowflake: &String) -> (at: usize)
        ensures
            at == position(user_keys(user_views(self.users@)), discord_snowflake@),
            at <= self.users@.len(),
            at < self.users@.len() ==> self.users@[at as int].discord_snowflake@
                == discord_snowflake@,
    {
        let ghost keys = user_keys(user_views(self.users@));
        let mut at: usize = 0;
        while at < self.users.len()
            invariant
                at <= self.users@.len(),
                keys == user_keys(user_views(self.users@)),
                forall|j: int| 0 <= j < at ==> keys[j] != discord_snowflake@,
            decreases self.users@.len() - at,
        {
            if self.users[at].discord_snowflake == *discord_snowflake {
                proof {
                    assert(keys[at as int] == discord_snowflake@);
                    lemma_position_is(keys, discord_snowflake@, at as int);
                }
                return at;
            }
            proof {
                assert(keys[at as int] == self.users@[at as int].discord_snowflake@);
            }
            at = at + 1;
        }
        proof {
            lemma_position_is(keys, discord_snowflake@, at as int);
        }
        at
    }

    fn insert_redirect(
        &mut self,
        key: &String,
        url: &String,
        host: &String,
        created_by: i64,
        now: i64,
    ) -> (out: ExecOutcome)
        ensures
            (final(self)@, out@) == old(self)@.insert_redirect(
                key@,
                url@,
                host@,
                created_by,
                now,
            ),
    {
        if !self.redirects_created {
            return failed(FailureKind::Other, "no such table: redirects");
        }
        if self.find_redirect(key) < self.redirects.len() {
            return failed(FailureKind::UniqueViolation, "UNIQUE constraint failed: redirects.key");
        }
        if self.next_redirect_id == i64::MAX {
            return failed(FailureKind::Other, "database or disk is full");
        }
        let row = RedirectRow {
            id: self.next_redirect_id,
            key: key.clone(),
            url: url.clone(),
            redirect_host: host.clone(),
            visits: 0,
            created_by,
            created_utc: now,
            updated_utc: now,
        };
        let ghost before = self.redirects@;
        self.redirects.push(row);
        self.next_redirect_id = self.next_redirect_id + 1;
        proof {
            assert(redirect_views(self.redirects@) =~= redirect_views(before).push(row@));
        }
        ExecOutcome::Affected(1)
    }

    fn update_redirect_url(&mut self, key: &String, url: &String, host: &String) -> (out:
        ExecOutcome)
        ensures
            (final(self)@, out@) == old(self)@.update_redirect_url(key@, url@, host@),
    {
        if !self.redirects_created {
            return failed(FailureKind::Other, "no such table: redirects");
        }
        let at = self.find_redirect(key);
        if at >= self.redirects.len() || !(self.redirects[at].redirect_host == *host) {
            return ExecOutcome::Affected(0);
        }
        let ghost before = self.redirects@;
        let mut row = self.redirects[at].clone();
        row.url = url.clone();
        self.redirects.set(at, row);
        proof {
            assert(redirect_views(self.redirects@) =~= redirect_views(before).update(
                at as int,
                RedirectView { url: url@, ..before[at as int]@ },
            ));
        }
        ExecOutcome::Affected(1)
    }

    fn delete_redirect(&mut self, key: &String, host: &String) -> (out: ExecOutcome)
        ensures
            (final(self)@, out@) == old(self)@.delete_redirect(key@, host@),
    {
        if !self.redirects_created {
            return failed(FailureKind::Other, "no such table: redirects");
        }
        let at = self.find_redirect(key);
        if at >= self.redirects.len() || !(self.redirects[at].redirect_host == *host) {
            return ExecOutcome::Affected(0);
        }
        let ghost before = self.redirects@;
        let _ = self.redirects.remove(at);
        proof {
            assert(redirect_views(self.redirects@) =~= redirect_views(before).remove(at as int));
        }
        ExecOutcome::Affected(1)
    }

    fn increment_visits(&mut self, key: &String) -> (out: ExecOutcome)
        ensures
            (final(self)@, out@) == old(self)@.increment_visits(key@),
    {
        if !self.redirects_created {
            return failed(FailureKind::Other, "no such table: redirects");
        }
        let at = self.find_redirect(key);
        if at >= self.redirects.len() {
            return ExecOutcome::Affected(0);
        }
        if self.redirects[at].visits == u64::MAX {
            return failed(FailureKind::Other, "integer overflow");
        }
        let ghost before = self.redirects@;
        let mut row = self.redirects[at].clone();
        row.visits = row.visits + 1;
        self.redirects.set(at, row);
        proof {
            assert(redirect_views(self.redirects@) =~= redirect_views(before).update(
                at as int,
                RedirectView {
                    visits: (before[at as int].visits + 1) as u64,
                    ..before[at as int]@
                },
            ));
        }
        ExecOutcome::Affected(1)
    }

    fn upsert_user(&mut self, discord_snowflake: &String, username: &String, now: i64) -> (out:
        ExecOutcome)
        ensures
            (final(self)@, out@) == old(self)@.upsert_user(discord_snowflake@, username@, now),
    {
        if !self.users_created {
            return failed(FailureKind::Other, "no such table: users");
        }
        let at = self.find_user(discord_snowflake);
        let ghost before = self.users@;
        if at < self.users.len() {
            let mut row = self.users[at].clone();
            row.discord_username = username.clone();
            row.updated_utc = now;
            self.users.set(at, row);
            proof {
                assert(user_views(self.users@) =~= user_views(before).update(
                    at as int,
                    UserView { discord_username: username@, updated_utc: now, ..before[at as int]@ },
                ));
            }
            return ExecOutcome::Affected(1);
        }
        if self.next_user_id == i64::MAX {
            return failed(FailureKind::Other, "database or disk is full");
        }
        let row = UserRow {
            id: self.next_user_id,
            discord_snowflake: discord_snowflake.clone(),
            discord_username: username.clone(),
            created_utc: now,
            updated_utc: now,
        };
        self.users.push(row);
        self.next_user_id = self.next_user_id + 1;
        proof {
            assert(user_views(self.users@) =~= user_views(before).push(row@));
        }
        ExecOutcome::Affected(1)
    }

    /// Carries out `command` at the time `now` (seconds since the Unix
    /// epoch) and answers as the database does.
    pub fn execute(&mut self, command: &Command, now: i64) -> (out: ExecOutcome)
        requires
            old(self)@.wf(),
        ensures
            (final(self)@, out@) == old(self)@.run(*command, now),
            final(self)@.wf(),
    {
        proof {
            lemma_run_keeps_invariant(self@, *command, now);
        }
        match command {
            Command::CreateRedirectsTable => {
                if !self.redirects_created {
                    self.redirects = Vec::new();
                    self.redirects_created = true;
                    assert(redirect_views(self.redirects@) =~= Seq::empty());
                }
                ExecOutcome::Affected(0)
            },
            Command::CreateRedirectsIndex => {
                if self.redirects_created {
                    ExecOutcome::Affected(0)
                } else {
                    failed(FailureKind::Other, "no such table: main.redirects")
                }
            },
            Command::CreateUsersTable => {
                if !self.users_created {
                    self.users = Vec::new();
                    self.users_created = true;
                    assert(user_views(self.users@) =~= Seq::empty());
                }
                ExecOutcome::Affected(0)
            },
            Command::CreateUsersIndex => {
                if self.users_created {
                    ExecOutcome::Affected(0)
                } else {
                    failed(FailureKind::Other, "no such table: main.users")
                }
            },
            Command::InsertRedirect { key, url, redirect_host, created_by } => {
                self.insert_redirect(key, url, redirect_host, *created_by, now)
            },
            Command::UpdateRedirectUrl { key, url, redirect_host } => {
                self.update_redirect_url(key, url, redirect_host)
            },
            Command::DeleteRedirect { key, redirect_host } => {
                self.delete_redirect(key, redirect_host)
            },
            Command::IncrementVisits { key } => self.increment_visits(key),
            Command::UpsertUser { discord_snowflake, discord_username } => {
                self.upsert_user(discord_snowflake, discord_username, now)
            },
        }
    }

    /// The redirects that `query` finds.
    pub fn select_redirects(&self, query: &RedirectQuery) -> (found: Result<
        Vec<RedirectRow>,
        DbFailure,
    >)
        ensures
            found_redirects(found) == self@.select_redirects(*query),
            found matches Err(failure) ==> failure.kind == FailureKind::Other,
    {
        if !self.redirects_created {
            return Err(
                DbFailure {
                    kind: FailureKind::Other,
                    message: String::from_str("no such table: redirects"),
                },
            );
        }
        let mut found: Vec<RedirectRow> = Vec::new();
        match query {
            RedirectQuery::ByKey { key, redirect_host } => {
                let at = self.find_redirect(key);
                if at < self.redirects.len() && self.redirects[at].redirect_host == *redirect_host {
                    found.push(self.redirects[at].clone());
                    assert(redirect_views(found@) =~= seq![self.redirects@[at as int]@]);
                } else {
                    assert(redirect_views(found@) =~= Seq::empty());
                }
            },
            RedirectQuery::All => {
                let mut i: usize = 0;
                while i < self.redirects.len()
                    invariant
                        i <= self.redirects@.len(),
                        redirect_views(found@) == redirect_views(self.redirects@).take(i as int),
                    decreases self.redirects@.len() - i,
                {
                    let ghost before = found@;
                    found.push(self.redirects[i].clone());
                    proof {
                        assert(redirect_views(found@) =~= redirect_views(before).push(
                            self.redirects@[i as int]@,
                        ));
                        assert(redirect_views(self.redirects@).take(i as int).push(
                            self.redirects@[i as int]@,
                        ) =~= redirect_views(self.redirects@).take(i + 1));
                    }
                    i = i + 1;
                }
                proof {
                    assert(redirect_views(self.redirects@).take(i as int) =~= redirect_views(
                        self.redirects@,
                    ));
                }
            },
        }
        Ok(found)
    }

    /// The users that `query` finds.
    pub fn select_users(&self, query: &UserQuery) -> (found: Result<Vec<UserRow>, DbFailure>)
        ensures
            found_users(found) == self@.select_users(*query),
            found matches Err(failure) ==> failure.kind == FailureKind::Other,
    {
        if !self.users_created {
            return Err(
                DbFailure {
                    kind: FailureKind::Other,
                    message: String::from_str("no such table: users"),
                },
            );
        }
        let mut found: Vec<UserRow> = Vec::new();
        match query {
            UserQuery::ByDiscordId { discord_snowflake } => {
                let at = self.find_user(discord_snowflake);
                if at < self.users.len() {
                    found.push(self.users[at].clone());
                    assert(user_views(found@) =~= seq![self.users@[at as int]@]);
                } else {
                    assert(user_views(found@) =~= Seq::empty());
                }
            },
        }
        Ok(found)
    }
}

/// Where the local replica of the database lies: where the setting says, or
/// in `local_replica.db` in the working directory.
pub fn local_replica_path(setting: Option<&str>) -> (path: String)
    ensures
        path@ == match setting {
            Some(path) => path@,
            None => "file:local_replica.db"@,
        },
{
    match setting {
        Some(path) => String::from_str(path),
        None => String::from_str("file:local_replica.db"),
    }
}

/// The statements that set the schema up, in the order in which they run.
pub open spec fn schema_commands() -> Seq<Command> {
    seq![
        Command::CreateRedirectsTable,
        Command::CreateRedirectsIndex,
        Command::CreateUsersTable,
        Command::CreateUsersIndex,
    ]
}

/// What the failure of the `step`-th statement of the schema is reported as.
pub open spec fn schema_failure(step: int) -> Seq<char> {
    if step == 0 {
        "Failed to create redirects table"@
    } else if step == 1 {
        "Failed to create index on redirects table"@
    } else if step == 2 {
        "Failed to create users table"@
    } else {
        "Failed to create index on users table"@
    }
}

/// The database with both tables: those it has stay as they are, and one
/// that is missing is there and empty.
pub open spec fn spec_init_tables(db: DatabaseView) -> DatabaseView {
    DatabaseView {
        redirects: match db.redirects {
            Some(rows) => Some(rows),
            None => Some(Seq::empty()),
        },
        users: match db.users {
            Some(rows) => Some(rows),
            None => Some(Seq::empty()),
        },
        ..db
    }
}

/// See [`schema_commands`]. The statements are meant to run in this order
/// within one transaction, which is committed after the last.
pub fn schema() -> (commands: Vec<Command>)
    ensures
        commands@ == schema_commands(),
{
    let mut commands: Vec<Command> = Vec::new();
    commands.push(Command::CreateRedirectsTable);
    commands.push(Command::CreateRedirectsIndex);
    commands.push(Command::CreateUsersTable);
    commands.push(Command::CreateUsersIndex);
    assert(commands@ =~= schema_commands());
    commands
}

/// What the answer to the `step`-th statement of the schema means: any
/// number of rows is success, and a failure ends the set-up with the message
/// of that step.
pub fn schema_step_done(step: usize, outcome: &ExecOutcome) -> (r: Result<(), AppError>)
    ensures
        match r {
            Ok(_) => outcome@ is Affected,
            Err(e) => outcome@ is Failed && e.kind == ErrorKind::Internal && e.message@
                == schema_failure(step as int),
        },
{
    match outcome {
        ExecOutcome::Affected(_) => Ok(()),
        ExecOutcome::Failed(_) => {
            let message = if step == 0 {
                "Failed to create redirects table"
            } else if step == 1 {
                "Failed to create index on redirects table"
            } else if step == 2 {
                "Failed to create users table"
            } else {
                "Failed to create index on users table"
            };
            Err(AppError::new(ErrorKind::Internal, message))
        },
    }
}

/// The error that reports that the transaction of the schema could not be
/// committed.
pub fn commit_failed() -> (e: AppError)
    ensures
        e.kind == ErrorKind::Internal,
        e.message@ == "Failed to commit transaction"@,
{
    AppError::new(ErrorKind::Internal, "Failed to commit transaction")
}

/// Sets the schema up: creates the two tables and their indexes unless they
/// are there. Rows that are there stay. On the tables in memory it cannot
/// fail.
pub fn init_tables(db: &mut Database) -> (r: Result<(), AppError>)
    requires
        old(db)@.wf(),
    ensures
        r is Ok,
        final(db)@ == spec_init_tables(old(db)@),
        final(db)@.wf(),
        final(db)@.ready(),
{
    let commands = schema();
    let mut step: usize = 0;
    while step < commands.len()
        invariant
            step <= 4,
            commands@ == schema_commands(),
            db@.wf(),
            db@.next_redirect_id == old(db)@.next_redirect_id,
            db@.next_user_id == old(db)@.next_user_id,
            db@.redirects == if step >= 1 {
                spec_init_tables(old(db)@).redirects
            } else {
                old(db)@.redirects
            },
            db@.users == if step >= 3 {
                spec_init_tables(old(db)@).users
            } else {
                old(db)@.users
            },
        decreases commands@.len() - step,
    {
        let outcome = db.execute(&commands[step], 0);
        match schema_step_done(step, &outcome) {
            Ok(_) => {},
            Err(e) => {
                return Err(e);
            },
        }
        step = step + 1;
    }
    Ok(())
}

/// Setting the schema up a second time changes nothing.
pub proof fn law_init_tables_idempotent(db: DatabaseView)
    ensures
        spec_init_tables(spec_init_tables(db)) == spec_init_tables(db),
        db.ready() ==> spec_init_tables(db) == db,
{
}

} // verus!
