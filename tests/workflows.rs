use coretime_notifier::errors::{Error, Route, STATUS_BAD_REQUEST, STATUS_CONFLICT, STATUS_NOT_FOUND};
use coretime_notifier::notifier::{Channel, Notifier};
use coretime_notifier::payload::{AuthData, RegistrationData, UpdateData};
use coretime_notifier::query::found_user;
use coretime_notifier::register::Registration;
use coretime_notifier::store::{StoreError, UserRow};
use coretime_notifier::update::Update;
use coretime_notifier::user::User;
use coretime_notifier::workflow::{Action, Event};
use rusqlite::Connection;

const SCHEMA: &str = "CREATE TABLE IF NOT EXISTS users (
    id INTEGER PRIMARY KEY NOT NULL,
    tg_handle TEXT UNIQUE,
    email TEXT UNIQUE,
    notifier TEXT CHECK (notifier IN ('email', 'telegram') OR notifier IS NULL)
)";

fn open_store() -> Connection {
    let conn = Connection::open_in_memory().unwrap();
    conn.execute(SCHEMA, ()).unwrap();
    conn
}

fn store_error(e: rusqlite::Error) -> StoreError {
    match e {
        rusqlite::Error::SqliteFailure(f, _) => StoreError::from_code(f.extended_code),
        _ => StoreError::Failure,
    }
}

fn rows_where<P: rusqlite::Params>(conn: &Connection, column: &str, value: P) -> Result<Vec<UserRow>, StoreError> {
    let sql = format!("SELECT id, email, tg_handle, notifier FROM users WHERE {}=?1", column);
    let mut stmt = conn.prepare(&sql).map_err(store_error)?;
    let rows = stmt
        .query_map(value, |row| {
            Ok(UserRow {
                id: row.get("id")?,
                email: row.get("email")?,
                tg_handle: row.get("tg_handle")?,
                notifier: row.get("notifier")?,
            })
        })
        .map_err(store_error)?;
    let mut out = Vec::new();
    for row in rows {
        out.push(row.map_err(store_error)?);
    }
    Ok(out)
}

fn write(conn: &Connection, sql: &str, user: &User) -> Result<(), StoreError> {
    let row = user.to_row();
    conn.execute(sql, (row.id, row.email, row.tg_handle, row.notifier))
        .map(|_| ())
        .map_err(store_error)
}

fn perform(conn: &Connection, action: Action, email_verifier: &dyn Fn(&str) -> Option<String>) -> Result<Event, Result<u32, Error>> {
    match action {
        Action::VerifyEmail(token) => Ok(Event::Verified(email_verifier(&token))),
        Action::LookupId(id) => Ok(Event::Found(rows_where(conn, "id", (id,)).and_then(|r| User::first_of_rows(&r)))),
        Action::LookupEmail(e) => Ok(Event::Found(rows_where(conn, "email", (e,)).and_then(|r| User::first_of_rows(&r)))),
        Action::LookupHandle(h) => Ok(Event::Found(rows_where(conn, "tg_handle", (h,)).and_then(|r| User::first_of_rows(&r)))),
        Action::Insert(u) => Ok(Event::Written(write(
            conn,
            "INSERT INTO users (id, email, tg_handle, notifier) VALUES (?1, ?2, ?3, ?4)",
            &u,
        ))),
        Action::Replace(u) => Ok(Event::Written(write(
            conn,
            "UPDATE users SET email = ?2, tg_handle = ?3, notifier = ?4 WHERE id = ?1",
            &u,
        ))),
        Action::Reply(r) => Err(r),
    }
}

/// This stand-in for the email verifier accepts a token `t` for the address `a@x.com`, and a token of the
/// form `token-for:<address>` for that address.
fn email_verifier(token: &str) -> Option<String> {
    if token == "t" {
        Some("a@x.com".to_string())
    } else {
        token.strip_prefix("token-for:").map(|s| s.to_string())
    }
}

fn register(conn: &Connection, data: RegistrationData) -> Result<u32, Error> {
    let (mut reg, mut action) = Registration::start(data, true);
    loop {
        match perform(conn, action, &email_verifier) {
            Ok(event) => {
                assert!(reg.accepts(&event));
                action = reg.step(event);
            }
            Err(reply) => return reply,
        }
    }
}

fn update(conn: &Connection, data: UpdateData) -> Result<u32, Error> {
    let (mut upd, mut action) = Update::start(data, true);
    loop {
        match perform(conn, action, &email_verifier) {
            Ok(event) => {
                assert!(upd.accepts(&event));
                action = upd.step(event);
            }
            Err(reply) => return reply,
        }
    }
}

fn get_user(conn: &Connection, id: u32) -> Result<User, Error> {
    found_user(rows_where(conn, "id", (id,)).and_then(|r| User::first_of_rows(&r)))
}

fn s(v: &str) -> Option<String> {
    Some(v.to_string())
}

fn auth(email_token: Option<String>, tg_token: Option<String>) -> AuthData {
    AuthData { email_token, tg_token }
}

fn count(conn: &Connection) -> i64 {
    conn.query_row("SELECT COUNT(*) FROM users", (), |r| r.get(0)).unwrap()
}

#[test]
fn query_register_works() {
    let conn = open_store();

    // CASE 1: user doesn't exist.
    let err = get_user(&conn, 0).unwrap_err();
    assert_eq!(err.status(Route::Query), STATUS_BAD_REQUEST);
    assert_eq!(err, Error::UserNotFound);

    // CASE 2: user exists.
    let registration_data = RegistrationData {
        id: 0,
        notifier: Channel::Email,
        email: s("dummy@gmail.com"),
        tg_handle: None,
        auth_data: auth(s("token-for:dummy@gmail.com"), None),
    };
    assert_eq!(register(&conn, registration_data), Ok(0));

    assert_eq!(
        get_user(&conn, 0).unwrap(),
        User {
            id: 0,
            notifier: Notifier::Email("dummy@gmail.com".to_string()),
            email: s("dummy@gmail.com"),
            tg_handle: None,
        }
    );
}

#[test]
fn register_register_works() {
    let conn = open_store();

    let mut registration_data = RegistrationData {
        id: 0,
        notifier: Channel::Email,
        email: None,
        tg_handle: None,
        auth_data: auth(s("token-for:dummy@gmail.com"), s("tg-token")),
    };
    // CASE 1: the user did not set the notifier.
    let err = register(&conn, registration_data_copy(&registration_data)).unwrap_err();
    assert_eq!(err.status(Route::Register), STATUS_BAD_REQUEST);
    assert_eq!(err, Error::NotifierEmpty);

    // CASE 2: correct data, should work.
    registration_data.email = s("dummy@gmail.com");
    registration_data.tg_handle = s("@dummy");
    assert_eq!(register(&conn, registration_data_copy(&registration_data)), Ok(0));

    assert_eq!(
        get_user(&conn, 0).unwrap(),
        User {
            id: 0,
            email: s("dummy@gmail.com"),
            tg_handle: s("@dummy"),
            notifier: Notifier::Email("dummy@gmail.com".to_string()),
        }
    );

    // CASE 3: user with the same id exists.
    let err = register(&conn, registration_data_copy(&registration_data)).unwrap_err();
    assert_eq!(err.status(Route::Register), STATUS_CONFLICT);
    assert_eq!(err, Error::UserExists);

    // CASE 4: user with the same email exists.
    let registration_data = RegistrationData {
        id: 1,
        notifier: Channel::Email,
        email: s("dummy@gmail.com"),
        tg_handle: None,
        auth_data: auth(s("token-for:dummy@gmail.com"), None),
    };
    let err = register(&conn, registration_data).unwrap_err();
    assert_eq!(err.status(Route::Register), STATUS_CONFLICT);
    assert_eq!(err, Error::NotifierNotUnique);

    // CASE 5: user with the same telegram exists.
    let registration_data = RegistrationData {
        id: 1,
        notifier: Channel::Telegram,
        email: None,
        tg_handle: s("@dummy"),
        auth_data: auth(None, s("tg-token")),
    };
    let err = register(&conn, registration_data).unwrap_err();
    assert_eq!(err.status(Route::Register), STATUS_CONFLICT);
    assert_eq!(err, Error::NotifierNotUnique);
}

fn registration_data_copy(d: &RegistrationData) -> RegistrationData {
    RegistrationData {
        id: d.id,
        notifier: d.notifier,
        email: d.email.clone(),
        tg_handle: d.tg_handle.clone(),
        auth_data: auth(d.auth_data.email_token.clone(), d.auth_data.tg_token.clone()),
    }
}

#[test]
fn updating_users_works() {
    let conn = open_store();

    let registration_data = RegistrationData {
        id: 0,
        notifier: Channel::Telegram,
        email: None,
        tg_handle: s("@dummy"),
        auth_data: auth(None, s("tg-token")),
    };
    // Should register successfully.
    assert_eq!(register(&conn, registration_data), Ok(0));

    assert_eq!(
        get_user(&conn, 0).unwrap(),
        User {
            id: 0,
            email: None,
            tg_handle: s("@dummy"),
            notifier: Notifier::Telegram("@dummy".to_string()),
        }
    );

    // Update to mismatched notifier should not work.
    let update_data = UpdateData { id: 0, email: None, tg_handle: s("@dummy"), notifier: Some(Channel::Email) };
    let err = update(&conn, update_data).unwrap_err();
    assert_eq!(err.status(Route::Update), STATUS_BAD_REQUEST);

    // Update email with notifier works.
    let update_data =
        UpdateData { id: 0, email: s("dummy@mail.com"), tg_handle: s("@dummy"), notifier: Some(Channel::Email) };
    assert_eq!(update(&conn, update_data), Ok(0));

    // Should return the updated user information.
    assert_eq!(
        get_user(&conn, 0).unwrap(),
        User {
            id: 0,
            email: s("dummy@mail.com"),
            tg_handle: s("@dummy"),
            notifier: Notifier::Email("dummy@mail.com".to_string()),
        }
    );
}

#[test]
fn scenario_register_query_and_conflicting_email() {
    let conn = open_store();
    let first = RegistrationData {
        id: 0,
        notifier: Channel::Email,
        email: s("a@x.com"),
        tg_handle: None,
        auth_data: auth(s("t"), None),
    };
    assert_eq!(register(&conn, first), Ok(0));
    assert_eq!(
        get_user(&conn, 0).unwrap(),
        User { id: 0, email: s("a@x.com"), tg_handle: None, notifier: Notifier::Email("a@x.com".to_string()) }
    );
    let second = RegistrationData {
        id: 1,
        notifier: Channel::Email,
        email: s("a@x.com"),
        tg_handle: None,
        auth_data: auth(s("t"), None),
    };
    let err = register(&conn, second).unwrap_err();
    assert_eq!(err, Error::NotifierNotUnique);
    assert_eq!(err.status(Route::Register), STATUS_CONFLICT);
    assert_eq!(count(&conn), 1);
}

#[test]
fn registered_user_reads_back_equal() {
    let conn = open_store();
    let data = RegistrationData {
        id: 42,
        notifier: Channel::Telegram,
        email: s("someone@x.com"),
        tg_handle: s("@someone"),
        auth_data: auth(None, s("tg")),
    };
    assert_eq!(register(&conn, data), Ok(42));
    let u = get_user(&conn, 42).unwrap();
    assert_eq!(u.id, 42);
    assert_eq!(u.email, s("someone@x.com"));
    assert_eq!(u.tg_handle, s("@someone"));
    assert_eq!(u.notifier, Notifier::Telegram("@someone".to_string()));
}

#[test]
fn same_id_twice_leaves_store_unchanged() {
    let conn = open_store();
    let data = || RegistrationData {
        id: 7,
        notifier: Channel::Null,
        email: None,
        tg_handle: None,
        auth_data: auth(None, None),
    };
    assert_eq!(register(&conn, data()), Ok(7));
    let before = get_user(&conn, 7).unwrap();
    assert_eq!(register(&conn, data()), Err(Error::UserExists));
    assert_eq!(get_user(&conn, 7).unwrap(), before);
    assert_eq!(count(&conn), 1);
}

#[test]
fn taken_handle_leaves_first_user_unchanged() {
    let conn = open_store();
    let first = RegistrationData {
        id: 1,
        notifier: Channel::Telegram,
        email: None,
        tg_handle: s("@h"),
        auth_data: auth(None, s("x")),
    };
    assert_eq!(register(&conn, first), Ok(1));
    let before = get_user(&conn, 1).unwrap();
    let second = RegistrationData {
        id: 2,
        notifier: Channel::Null,
        email: None,
        tg_handle: s("@h"),
        auth_data: auth(None, None),
    };
    assert_eq!(register(&conn, second), Err(Error::NotifierNotUnique));
    assert_eq!(get_user(&conn, 1).unwrap(), before);
    assert_eq!(get_user(&conn, 2), Err(Error::UserNotFound));
}

#[test]
fn email_without_address_is_notifier_empty() {
    let conn = open_store();
    for email in [None, s("")] {
        let data = RegistrationData {
            id: 3,
            notifier: Channel::Email,
            email,
            tg_handle: s("@whatever"),
            auth_data: auth(s("t"), s("x")),
        };
        assert_eq!(register(&conn, data), Err(Error::NotifierEmpty));
    }
    assert_eq!(count(&conn), 0);
}

#[test]
fn email_without_token_is_auth_data_empty() {
    let conn = open_store();
    let data = RegistrationData {
        id: 3,
        notifier: Channel::Email,
        email: s("a@x.com"),
        tg_handle: None,
        auth_data: auth(None, s("x")),
    };
    let err = register(&conn, data).unwrap_err();
    assert_eq!(err, Error::AuthDataEmpty);
    assert_eq!(err.status(Route::Register), STATUS_BAD_REQUEST);
}

#[test]
fn telegram_without_token_is_auth_data_empty() {
    let conn = open_store();
    let data = RegistrationData {
        id: 3,
        notifier: Channel::Telegram,
        email: None,
        tg_handle: s("@h"),
        auth_data: auth(s("t"), None),
    };
    assert_eq!(register(&conn, data), Err(Error::AuthDataEmpty));
}

#[test]
fn token_for_another_address_is_bad_auth_data() {
    let conn = open_store();
    let data = RegistrationData {
        id: 3,
        notifier: Channel::Email,
        email: s("b@x.com"),
        tg_handle: None,
        auth_data: auth(s("t"), None),
    };
    let err = register(&conn, data).unwrap_err();
    assert_eq!(err, Error::BadAuthData);
    assert_eq!(err.status(Route::Register), STATUS_BAD_REQUEST);
    let refused = RegistrationData {
        id: 3,
        notifier: Channel::Email,
        email: s("b@x.com"),
        tg_handle: None,
        auth_data: auth(s("unknown"), None),
    };
    assert_eq!(register(&conn, refused), Err(Error::BadAuthData));
    assert_eq!(count(&conn), 0);
}

#[test]
fn update_without_notifier_keeps_stored_notifier() {
    let conn = open_store();
    let data = RegistrationData {
        id: 5,
        notifier: Channel::Telegram,
        email: None,
        tg_handle: s("@old"),
        auth_data: auth(None, s("x")),
    };
    assert_eq!(register(&conn, data), Ok(5));
    let upd = UpdateData { id: 5, email: s("new@x.com"), tg_handle: None, notifier: None };
    assert_eq!(update(&conn, upd), Ok(5));
    assert_eq!(
        get_user(&conn, 5).unwrap(),
        User {
            id: 5,
            email: s("new@x.com"),
            tg_handle: s("@old"),
            notifier: Notifier::Telegram("@old".to_string()),
        }
    );
    let upd = UpdateData { id: 5, email: None, tg_handle: s("@new"), notifier: None };
    assert_eq!(update(&conn, upd), Ok(5));
    assert_eq!(get_user(&conn, 5).unwrap().notifier, Notifier::Telegram("@new".to_string()));
}

#[test]
fn update_notifier_without_address_is_rejected() {
    let conn = open_store();
    let data = RegistrationData {
        id: 5,
        notifier: Channel::Email,
        email: s("a@x.com"),
        tg_handle: None,
        auth_data: auth(s("t"), None),
    };
    assert_eq!(register(&conn, data), Ok(5));
    let before = get_user(&conn, 5).unwrap();
    let upd = UpdateData { id: 5, email: None, tg_handle: None, notifier: Some(Channel::Telegram) };
    assert_eq!(update(&conn, upd), Err(Error::NotifierEmpty));
    // The stored email does not count: the address must come with the update.
    let upd = UpdateData { id: 5, email: None, tg_handle: None, notifier: Some(Channel::Email) };
    assert_eq!(update(&conn, upd), Err(Error::NotifierEmpty));
    assert_eq!(get_user(&conn, 5).unwrap(), before);
}

#[test]
fn update_to_null_notifier() {
    let conn = open_store();
    let data = RegistrationData {
        id: 5,
        notifier: Channel::Email,
        email: s("a@x.com"),
        tg_handle: None,
        auth_data: auth(s("t"), None),
    };
    assert_eq!(register(&conn, data), Ok(5));
    let upd = UpdateData { id: 5, email: None, tg_handle: None, notifier: Some(Channel::Null) };
    assert_eq!(update(&conn, upd), Ok(5));
    assert_eq!(
        get_user(&conn, 5).unwrap(),
        User { id: 5, email: s("a@x.com"), tg_handle: None, notifier: Notifier::Null }
    );
}

#[test]
fn update_of_missing_user_is_not_found() {
    let conn = open_store();
    let upd = UpdateData { id: 9, email: s("a@x.com"), tg_handle: None, notifier: None };
    let err = update(&conn, upd).unwrap_err();
    assert_eq!(err, Error::UserNotFound);
    assert_eq!(err.status(Route::Update), STATUS_NOT_FOUND);
}

#[test]
fn update_to_taken_email_conflicts() {
    let conn = open_store();
    let a = RegistrationData {
        id: 1,
        notifier: Channel::Email,
        email: s("a@x.com"),
        tg_handle: None,
        auth_data: auth(s("t"), None),
    };
    let b = RegistrationData {
        id: 2,
        notifier: Channel::Telegram,
        email: None,
        tg_handle: s("@b"),
        auth_data: auth(None, s("x")),
    };
    assert_eq!(register(&conn, a), Ok(1));
    assert_eq!(register(&conn, b), Ok(2));
    let upd = UpdateData { id: 2, email: s("a@x.com"), tg_handle: None, notifier: None };
    let err = update(&conn, upd).unwrap_err();
    assert_eq!(err, Error::NotifierNotUnique);
    assert_eq!(err.status(Route::Update), STATUS_CONFLICT);
    // Giving one's own email again is no conflict.
    let upd = UpdateData { id: 1, email: s("a@x.com"), tg_handle: None, notifier: Some(Channel::Email) };
    assert_eq!(update(&conn, upd), Ok(1));
}

#[test]
fn store_constraint_is_mapped_back() {
    // A write that loses a race is refused by the store's own constraints.
    let conn = open_store();
    let taken = User { id: 1, email: s("a@x.com"), tg_handle: None, notifier: Notifier::Null };
    write(&conn, "INSERT INTO users (id, email, tg_handle, notifier) VALUES (?1, ?2, ?3, ?4)", &taken).unwrap();
    let same_id = User { id: 1, email: None, tg_handle: None, notifier: Notifier::Null };
    assert_eq!(
        write(&conn, "INSERT INTO users (id, email, tg_handle, notifier) VALUES (?1, ?2, ?3, ?4)", &same_id),
        Err(StoreError::DuplicateId)
    );
    let same_email = User { id: 2, email: s("a@x.com"), tg_handle: None, notifier: Notifier::Null };
    assert_eq!(
        write(&conn, "INSERT INTO users (id, email, tg_handle, notifier) VALUES (?1, ?2, ?3, ?4)", &same_email),
        Err(StoreError::DuplicateChannel)
    );
}

#[test]
fn lost_race_on_insert_is_a_conflict() {
    // The lookups found nothing, but the row appeared before the insert.
    let conn = open_store();
    let data = RegistrationData {
        id: 1,
        notifier: Channel::Null,
        email: s("a@x.com"),
        tg_handle: None,
        auth_data: auth(None, None),
    };
    let (mut reg, mut action) = Registration::start(data, true);
    let mut inserted_meanwhile = false;
    loop {
        if let Action::Insert(_) = action {
            if !inserted_meanwhile {
                let other = User { id: 2, email: s("a@x.com"), tg_handle: None, notifier: Notifier::Null };
                write(&conn, "INSERT INTO users (id, email, tg_handle, notifier) VALUES (?1, ?2, ?3, ?4)", &other)
                    .unwrap();
                inserted_meanwhile = true;
            }
        }
        match perform(&conn, action, &email_verifier) {
            Ok(event) => action = reg.step(event),
            Err(reply) => {
                assert_eq!(reply, Err(Error::NotifierNotUnique));
                break;
            }
        }
    }
    assert!(inserted_meanwhile);
}

#[test]
fn no_connection_is_db_connection_failed() {
    let data = RegistrationData {
        id: 1,
        notifier: Channel::Null,
        email: None,
        tg_handle: None,
        auth_data: auth(None, None),
    };
    match Registration::start(data, false).1 {
        Action::Reply(r) => assert_eq!(r, Err(Error::DbConnectionFailed)),
        other => panic!("unexpected action {:?}", other),
    }
    let upd = UpdateData { id: 1, email: None, tg_handle: None, notifier: None };
    match Update::start(upd, false).1 {
        Action::Reply(r) => assert_eq!(r, Err(Error::DbConnectionFailed)),
        other => panic!("unexpected action {:?}", other),
    }
}

#[test]
fn corrupt_row_fails_single_lookup() {
    let conn = open_store();
    conn.execute("PRAGMA ignore_check_constraints = ON", ()).unwrap();
    conn.execute("INSERT INTO users (id, email, tg_handle, notifier) VALUES (1, NULL, NULL, 'pigeon')", ())
        .unwrap();
    assert_eq!(get_user(&conn, 1), Err(Error::DbError));
    assert_eq!(Error::DbError.status(Route::Query), 500);
}
