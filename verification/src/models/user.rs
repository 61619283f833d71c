//! Users: the Discord accounts that have signed in.

use crate::database::{
    lemma_position, lemma_position_is, user_keys, Command, Database, DatabaseView, Effect,
    ExecOutcome, RowAnswer, UserQuery,
};
use crate::error::{unit_outcome, AppError, ErrorKind, Outcome};
use crate::utils::strings::join;
use vstd::prelude::*;
use vstd::string::*;

verus! {

/// A row of the table `users`. Times are seconds since the Unix epoch.
#[derive(Debug)]
pub struct UserRow {
    pub id: i64,
    pub discord_snowflake: String,
    pub discord_username: String,
    pub created_utc: i64,
    pub updated_utc: i64,
}

/// A row of the table `users` as contracts speak of it.
pub struct UserView {
    pub id: i64,
    pub discord_snowflake: Seq<char>,
    pub discord_username: Seq<char>,
    pub created_utc: i64,
    pub updated_utc: i64,
}

impl View for UserRow {
    type V = UserView;

    open spec fn view(&self) -> UserView {
        UserView {
            id: self.id,
            discord_snowflake: self.discord_snowflake@,
            discord_username: self.discord_username@,
            created_utc: self.created_utc,
            updated_utc: self.updated_utc,
        }
    }
}

impl Clone for UserRow {
    fn clone(&self) -> (copy: UserRow)
        ensures
            copy@ == self@,
    {
        UserRow {
            id: self.id,
            discord_snowflake: self.discord_snowflake.clone(),
            discord_username: self.discord_username.clone(),
            created_utc: self.created_utc,
            updated_utc: self.updated_utc,
        }
    }
}

/// The views of a sequence of rows.
pub open spec fn user_views(rows: Seq<UserRow>) -> Seq<UserView> {
    rows.map_values(|row: UserRow| row@)
}

/// A row or an error, as contracts speak of it.
pub open spec fn user_outcome(r: Result<UserRow, AppError>) -> Outcome<UserView> {
    match r {
        Ok(row) => Outcome::Done(row@),
        Err(e) => Outcome::Failed(e.kind, e.message@),
    }
}

/// What the answer to an upsert means: exactly one row is touched, whether
/// it is new or renamed; anything else is an internal error.
pub open spec fn upsert_verdict(effect: Effect) -> Outcome<()> {
    match effect {
        Effect::Affected(n) => if n == 1 {
            Outcome::Done(())
        } else {
            Outcome::Failed(ErrorKind::Internal, "Failed to upsert user into database"@)
        },
        Effect::Failed(_, _) => Outcome::Failed(
            ErrorKind::Internal,
            "Failed to upsert user into database"@,
        ),
    }
}

/// What the answer to a lookup means: the row, or why there is none.
pub open spec fn user_lookup_verdict(answer: RowAnswer<UserRow>) -> Outcome<UserView> {
    match answer {
        RowAnswer::Row(row) => Outcome::Done(row@),
        RowAnswer::Undecodable(message) => Outcome::Failed(ErrorKind::Internal, message@),
        RowAnswer::NoRow => Outcome::Failed(
            ErrorKind::NotFound,
            "Failed to get user by discord id"@,
        ),
        RowAnswer::FetchFailed(message) => Outcome::Failed(
            ErrorKind::Internal,
            "Failed to get user by discord id: "@ + message@,
        ),
        RowAnswer::QueryFailed(_) => Outcome::Failed(
            ErrorKind::Internal,
            "Failed to get user from database"@,
        ),
    }
}

/// The statement that inserts or renames a user.
pub fn upsert_command(discord_snowflake: &str, discord_username: &str) -> (command: Command)
    ensures
        command matches Command::UpsertUser { discord_snowflake: s, discord_username: n } && s@
            == discord_snowflake@ && n@ == discord_username@,
{
    Command::UpsertUser {
        discord_snowflake: String::from_str(discord_snowflake),
        discord_username: String::from_str(discord_username),
    }
}

/// The statement that looks a user up.
pub fn user_query(discord_snowflake: &str) -> (query: UserQuery)
    ensures
        query matches UserQuery::ByDiscordId { discord_snowflake: s } && s@ == discord_snowflake@,
{
    UserQuery::ByDiscordId { discord_snowflake: String::from_str(discord_snowflake) }
}

/// See [`upsert_verdict`].
pub fn upserted(outcome: ExecOutcome) -> (r: Result<(), AppError>)
    ensures
        unit_outcome(r) == upsert_verdict(outcome@),
{
    match outcome {
        ExecOutcome::Affected(n) => {
            if n == 1 {
                Ok(())
            } else {
                Err(AppError::new(ErrorKind::Internal, "Failed to upsert user into database"))
            }
        },
        ExecOutcome::Failed(_) => Err(
            AppError::new(ErrorKind::Internal, "Failed to upsert user into database"),
        ),
    }
}

/// See [`user_lookup_verdict`].
pub fn user_looked_up(answer: RowAnswer<UserRow>) -> (r: Result<UserRow, AppError>)
    ensures
        user_outcome(r) == user_lookup_verdict(answer),
{
    match answer {
        RowAnswer::Row(row) => Ok(row),
        RowAnswer::Undecodable(message) => Err(AppError { kind: ErrorKind::Internal, message }),
        RowAnswer::NoRow => Err(
            AppError::new(ErrorKind::NotFound, "Failed to get user by discord id"),
        ),
        RowAnswer::FetchFailed(message) => Err(
            AppError {
                kind: ErrorKind::Internal,
                message: join("Failed to get user by discord id: ", message.as_str()),
            },
        ),
        RowAnswer::QueryFailed(_) => Err(
            AppError::new(ErrorKind::Internal, "Failed to get user from database"),
        ),
    }
}

/// What looking up the user with a Discord id gives.
pub open spec fn spec_get_user(db: DatabaseView, discord_snowflake: Seq<char>) -> Outcome<
    UserView,
> {
    match db.users {
        None => Outcome::Failed(ErrorKind::Internal, "Failed to get user from database"@),
        Some(_) => match db.user(discord_snowflake) {
            Some(row) => Outcome::Done(row),
            None => Outcome::Failed(ErrorKind::NotFound, "Failed to get user by discord id"@),
        },
    }
}

/// What upserting a user does and gives: the upsert, and where it succeeds,
/// the row as the store then holds it.
pub open spec fn spec_upsert_user(
    db: DatabaseView,
    discord_snowflake: Seq<char>,
    discord_username: Seq<char>,
    now: i64,
) -> (DatabaseView, Outcome<UserView>) {
    let (after, effect) = db.upsert_user(discord_snowflake, discord_username, now);
    match upsert_verdict(effect) {
        Outcome::Done(_) => (after, spec_get_user(after, discord_snowflake)),
        Outcome::Failed(kind, message) => (after, Outcome::Failed(kind, message)),
    }
}

/// Looks up the user with the Discord id `discord_snowflake`.
pub fn get_user_by_discord_id(db: &Database, discord_snowflake: &str) -> (r: Result<
    UserRow,
    AppError,
>)
    ensures
        user_outcome(r) == spec_get_user(db@, discord_snowflake@),
{
    let query = user_query(discord_snowflake);
    let found = db.select_users(&query);
    proof {
        if found is Ok {
            let rows = found->Ok_0;
            assert(user_views(rows@).len() == rows@.len());
            if rows@.len() > 0 {
                assert(user_views(rows@)[0] == rows@[0]@);
            }
        }
    }
    let answer = match found {
        Ok(rows) => {
            if rows.len() > 0 {
                RowAnswer::Row(rows[0].clone())
            } else {
                RowAnswer::NoRow
            }
        },
        Err(failure) => RowAnswer::QueryFailed(failure.message),
    };
    user_looked_up(answer)
}

/// Records that the Discord account `discord_snowflake` signed in under the
/// name `discord_username` at the time `now`: a new account gets a row, a
/// known one gets the name and the time, and keeps its id. Gives the row as
/// the store then holds it.
pub fn upsert_user(
    db: &mut Database,
    discord_snowflake: &str,
    discord_username: &str,
    now: i64,
) -> (r: Result<UserRow, AppError>)
    requires
        old(db)@.wf(),
    ensures
        final(db)@.wf(),
        (final(db)@, user_outcome(r)) == spec_upsert_user(
            old(db)@,
            discord_snowflake@,
            discord_username@,
            now,
        ),
{
    let command = upsert_command(discord_snowflake, discord_username);
    let outcome = db.execute(&command, now);
    match upserted(outcome) {
        Ok(_) => get_user_by_discord_id(db, discord_snowflake),
        Err(e) => Err(e),
    }
}

/// An account that signs in again keeps its row: the upsert gives the row it
/// had, with the new name and the time of the update, and the table has as
/// many rows as before.
pub proof fn law_upsert_keeps_identity(
    db: DatabaseView,
    discord_snowflake: Seq<char>,
    discord_username: Seq<char>,
    now: i64,
)
    requires
        db.wf(),
        db.user(discord_snowflake) is Some,
    ensures
        ({
            let (after, upserted) = spec_upsert_user(db, discord_snowflake, discord_username, now);
            &&& upserted == Outcome::Done(
                UserView {
                    discord_username,
                    updated_utc: now,
                    ..db.user(discord_snowflake)->0
                },
            )
            &&& after.users->0.len() == db.users->0.len()
            &&& after.user(discord_snowflake) == Some(upserted->Done_0)
        }),
{
    let rows = db.users->0;
    let (after, _) = spec_upsert_user(db, discord_snowflake, discord_username, now);
    lemma_position(user_keys(rows), discord_snowflake);
    assert(user_keys(after.users->0) =~= user_keys(rows));
}

/// An account that signs in for the first time gets a row of its own, with
/// an id that no other user has.
pub proof fn law_upsert_adds_new_user(
    db: DatabaseView,
    discord_snowflake: Seq<char>,
    discord_username: Seq<char>,
    now: i64,
)
    requires
        db.wf(),
        db.ready(),
        db.user(discord_snowflake) is None,
        db.next_user_id < i64::MAX,
    ensures
        ({
            let (after, upserted) = spec_upsert_user(db, discord_snowflake, discord_username, now);
            &&& upserted matches Outcome::Done(row)
            &&& row.discord_snowflake == discord_snowflake
            &&& row.discord_username == discord_username
            &&& after.user(discord_snowflake) == Some(row)
            &&& forall|i: int| 0 <= i < db.users->0.len() ==> (#[trigger] db.users->0[i]).id != row.id
        }),
{
    let rows = db.users->0;
    let (after, _) = spec_upsert_user(db, discord_snowflake, discord_username, now);
    let new_rows = after.users->0;
    lemma_position(user_keys(rows), discord_snowflake);
    assert forall|j: int| 0 <= j < rows.len() implies user_keys(new_rows)[j]
        != discord_snowflake by {
        assert(user_keys(rows)[j] == rows[j].discord_snowflake);
    }
    lemma_position_is(user_keys(new_rows), discord_snowflake, rows.len() as int);
}

} // verus!
