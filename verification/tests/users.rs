use url_shortener::database::{init_tables, Database, DbFailure, ExecOutcome, FailureKind, RowAnswer};
use url_shortener::error::ErrorKind;
use url_shortener::models::user::{
    get_user_by_discord_id, upsert_user, upserted, user_looked_up, UserRow,
};

const NOW: i64 = 1_700_000_000;

fn store() -> Database {
    let mut db = Database::new();
    init_tables(&mut db).unwrap();
    db
}

#[test]
fn new_account_gets_a_row() {
    let mut db = store();
    let user = upsert_user(&mut db, "1001", "ada", NOW).unwrap();
    assert_eq!(user.id, 1);
    assert_eq!(user.discord_snowflake, "1001");
    assert_eq!(user.discord_username, "ada");
    assert_eq!(user.created_utc, NOW);
    assert_eq!(user.updated_utc, NOW);
}

#[test]
fn known_account_keeps_its_row_and_gets_the_new_name() {
    let mut db = store();
    let first = upsert_user(&mut db, "1001", "ada", NOW).unwrap();
    let other = upsert_user(&mut db, "1002", "bob", NOW + 1).unwrap();
    let again = upsert_user(&mut db, "1001", "ada lovelace", NOW + 60).unwrap();
    assert_eq!(again.id, first.id);
    assert_ne!(other.id, first.id);
    assert_eq!(again.discord_username, "ada lovelace");
    assert_eq!(again.created_utc, NOW);
    assert_eq!(again.updated_utc, NOW + 60);
    assert_eq!(get_user_by_discord_id(&db, "1002").unwrap().discord_username, "bob");
}

#[test]
fn user_is_found_by_discord_id() {
    let mut db = store();
    upsert_user(&mut db, "1001", "ada", NOW).unwrap();
    assert_eq!(get_user_by_discord_id(&db, "1001").unwrap().discord_username, "ada");
    let err = get_user_by_discord_id(&db, "1002").unwrap_err();
    assert_eq!(err.kind, ErrorKind::NotFound);
    assert_eq!(err.message, "Failed to get user by discord id");
}

#[test]
fn users_need_their_table() {
    let mut db = Database::new();
    let err = upsert_user(&mut db, "1001", "ada", NOW).unwrap_err();
    assert_eq!(err.kind, ErrorKind::Internal);
    assert_eq!(err.message, "Failed to upsert user into database");
    let found = get_user_by_discord_id(&db, "1001").unwrap_err();
    assert_eq!(found.kind, ErrorKind::Internal);
    assert_eq!(found.message, "Failed to get user from database");
}

#[test]
fn upsert_answer_must_be_one_row() {
    assert!(upserted(ExecOutcome::Affected(1)).is_ok());
    for outcome in [
        ExecOutcome::Affected(0),
        ExecOutcome::Affected(2),
        ExecOutcome::Failed(DbFailure { kind: FailureKind::Other, message: "locked".to_string() }),
        ExecOutcome::Failed(DbFailure { kind: FailureKind::UniqueViolation, message: "dup".to_string() }),
    ] {
        let err = upserted(outcome).unwrap_err();
        assert_eq!(err.kind, ErrorKind::Internal);
        assert_eq!(err.message, "Failed to upsert user into database");
    }
}

#[test]
fn user_lookup_answers() {
    let row = UserRow {
        id: 3,
        discord_snowflake: "1001".to_string(),
        discord_username: "ada".to_string(),
        created_utc: NOW,
        updated_utc: NOW,
    };
    assert_eq!(user_looked_up(RowAnswer::Row(row)).unwrap().id, 3);
    let missing = user_looked_up(RowAnswer::NoRow).unwrap_err();
    assert_eq!((missing.kind, missing.message.as_str()), (ErrorKind::NotFound, "Failed to get user by discord id"));
    let unreadable = user_looked_up(RowAnswer::Undecodable("bad date".to_string())).unwrap_err();
    assert_eq!((unreadable.kind, unreadable.message.as_str()), (ErrorKind::Internal, "bad date"));
    let fetch = user_looked_up(RowAnswer::FetchFailed("closed".to_string())).unwrap_err();
    assert_eq!((fetch.kind, fetch.message.as_str()), (ErrorKind::Internal, "Failed to get user by discord id: closed"));
    let query = user_looked_up(RowAnswer::QueryFailed("closed".to_string())).unwrap_err();
    assert_eq!((query.kind, query.message.as_str()), (ErrorKind::Internal, "Failed to get user from database"));
}
