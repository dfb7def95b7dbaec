use rocket_rest_quickstart::auth::{Auth, CookieAction};
use rocket_rest_quickstart::database::DbError;
use rocket_rest_quickstart::form::{Field, FieldError};
use rocket_rest_quickstart::models::user::{
    validate_email, HashedPassword, Login, RegisterData, User,
};
use rocket_rest_quickstart::models::Timestamp;
use rocket_rest_quickstart::routes::users::{
    get_profile, login, logout, me, new_user, register, registration_row, RegisterRefusal,
    UserError,
};
use rocket_rest_quickstart::status;

const USERNAME: &str = "oddtest";
const EMAIL: &str = "oddtest@test.com";
const PASSWORD: &str = "passwordtest";

fn form(username: &str, email: &str, password: &str) -> RegisterData {
    RegisterData {
        username: username.to_string(),
        email: email.to_string(),
        password: password.to_string(),
    }
}

fn stored_user(id: i32) -> User {
    User {
        id,
        username: USERNAME.to_string(),
        email: EMAIL.to_string(),
        password_hash: HashedPassword::parse(PASSWORD).expect("hash"),
        created_at: Timestamp { secs: 1_650_000_000, nanos: 5 },
    }
}

/// What the server answers a registration form with when the form is
/// refused, or `None` when it passes.
fn refused_status(data: &RegisterData) -> Option<u16> {
    data.validate().err().map(|e| e.status())
}

#[test]
fn register_returns_a_422_for_invalid_input() {
    let test_cases = [
        (USERNAME, "invalid_email.com", PASSWORD),
        ("a", "test@gmail.com", PASSWORD),
        ("validname", "test@gmail.com", "too_short"),
    ];

    for (username, email, password) in test_cases {
        let response = refused_status(&form(username, email, password));
        assert_eq!(response, Some(422))
    }
}

#[test]
fn register_returns_a_422_for_duplicate_username_or_email() {
    // Duplicate email
    let err = register(Err(DbError::UniqueViolation {
        constraint_name: Some("users_email_key".to_string()),
        message: "duplicate key value violates unique constraint \"users_email_key\"".to_string(),
    }))
    .unwrap_err();
    let response = err.respond_to();
    assert_eq!(response.status, status::UNPROCESSABLE_ENTITY);
    assert!(response
        .body
        .unwrap()
        .contains("A user with that email already exists"));

    // Duplicate username
    let err = register(Err(DbError::UniqueViolation {
        constraint_name: Some("users_username_key".to_string()),
        message: "duplicate key value violates unique constraint \"users_username_key\""
            .to_string(),
    }))
    .unwrap_err();
    let response = err.respond_to();
    assert_eq!(response.status, status::UNPROCESSABLE_ENTITY);
    assert!(response
        .body
        .unwrap()
        .contains("A user with that username already exists"));
}

#[test]
fn users_login_or_register() {
    // Register: the form passes, the password is hashed, the row is stored.
    let data = form(USERNAME, EMAIL, PASSWORD);
    assert!(data.validate().is_ok());
    let row = new_user(data).expect("hashed");
    let stored = User {
        id: 7,
        username: row.username.clone(),
        email: row.email.clone(),
        password_hash: HashedPassword::from_sql(row.password_hash.to_sql().to_string()),
        created_at: Timestamp { secs: 1, nanos: 0 },
    };
    let registered = register(Ok(stored)).expect("registered");
    let new_user_cookie = registered.cookie.value();

    // The cookie authenticates the user, whose record is then found.
    let auth = Auth::from_request(Some(&new_user_cookie)).expect("authenticated");
    assert_eq!(auth, Auth(7));
    let db_user = me(Ok(registered.user)).expect("found");
    assert_eq!(db_user.email, EMAIL);
    assert_eq!(db_user.username, USERNAME);

    // Signing in again gives the same cookie.
    let signed_in = login(&Login { username: USERNAME, password: PASSWORD }, Ok(Some(db_user)))
        .expect("signed in");
    assert_eq!(signed_in.status, status::ACCEPTED);
    assert_eq!(signed_in.cookie.value(), new_user_cookie);
}

#[test]
fn login_returns_404_for_unknown_user() {
    let err = login(&Login { username: "nonexistantuser", password: PASSWORD }, Ok(None))
        .unwrap_err();
    let response = err.respond_to();
    assert_eq!(response.status, status::NOT_FOUND);
    assert!(response.body.unwrap().contains("User doesn't exist"));
}

#[test]
fn login_returns_401_for_invalid_password() {
    let err = login(
        &Login { username: USERNAME, password: "invalidpassword" },
        Ok(Some(stored_user(3))),
    )
    .unwrap_err();
    assert!(matches!(err, UserError::InvalidPassword));
    assert_eq!(err.respond_to().status, status::UNAUTHORIZED);
}

#[test]
fn users_get_profile_by_id() {
    let user = me(Ok(stored_user(11))).expect("found");
    assert_eq!(user.id, 11);
    let profile = get_profile(Ok(user)).expect("profile");
    assert_eq!(profile.username, USERNAME);
    assert_eq!(profile.id, 11);
    assert_eq!(profile.created_at, Timestamp { secs: 1_650_000_000, nanos: 5 });
}

#[test]
fn users_logout() {
    let cookie = logout();
    assert_eq!(cookie.name(), "user_id");
    assert!(matches!(cookie, CookieAction::Remove { .. }));
    assert!(cookie.value().is_empty());
}

#[test]
fn login_with_right_password_sets_user_id_cookie() {
    let cookie = login(&Login { username: USERNAME, password: PASSWORD }, Ok(Some(stored_user(-42))))
        .expect("signed in")
        .cookie;
    assert_eq!(cookie.name(), "user_id");
    assert_eq!(cookie.value(), "-42");
    assert_eq!(Auth::from_request(Some(&cookie.value())), Ok(Auth(-42)));
}

#[test]
fn login_lookup_failure_is_unexpected() {
    let err = login(
        &Login { username: USERNAME, password: PASSWORD },
        Err(DbError::Other { message: "connection reset".to_string() }),
    )
    .unwrap_err();
    assert_eq!(err.message(), "User with this username doesn't exist");
    assert_eq!(err.respond_to().status, status::INTERNAL_SERVER_ERROR);
    assert!(err.respond_to().body.is_none());
}

#[test]
fn register_sets_cookie_and_location() {
    let registered = register(Ok(stored_user(123))).expect("registered");
    assert_eq!(registered.status, status::CREATED);
    assert_eq!(registered.location, "/api/users/123");
    assert_eq!(registered.cookie.name(), "user_id");
    assert_eq!(registered.cookie.value(), "123");
    assert_eq!(registered.user.id, 123);
}

#[test]
fn other_constraint_or_error_is_unexpected() {
    let err = UserError::from(DbError::UniqueViolation {
        constraint_name: Some("users_pkey".to_string()),
        message: "duplicate key".to_string(),
    });
    assert!(matches!(&err, UserError::UnexpectedError(m) if m == "duplicate key"));
    assert_eq!(err.respond_to().status, 500);

    let err = UserError::from(DbError::UniqueViolation {
        constraint_name: None,
        message: "no constraint".to_string(),
    });
    assert!(matches!(&err, UserError::UnexpectedError(m) if m == "no constraint"));

    let err = UserError::from(DbError::NotFound);
    assert_eq!(err.message(), "Record not found");
}

#[test]
fn user_error_messages() {
    assert_eq!(
        UserError::UnknownUser.message(),
        "There is no user associated with the provided username."
    );
    assert_eq!(UserError::InvalidPassword.message(), "Invalid password.");
    assert_eq!(
        UserError::DuplicatedUser("A user with that email already exists").message(),
        "A user with that email already exists"
    );
    assert!(UserError::InvalidPassword.respond_to().body.is_none());
}

#[test]
fn email_without_at_sign_is_refused() {
    assert!(validate_email("invalid_email.com").is_err());
    assert_eq!(validate_email("invalid_email.com"), Err(FieldError::InvalidEmail));
    assert_eq!(validate_email("test@gmail.com"), Ok(()));
    assert_eq!(validate_email(EMAIL), Ok(()));
    assert!(validate_email("").is_err());
}

#[test]
fn new_user_keeps_only_the_hash() {
    let row = new_user(form(USERNAME, EMAIL, PASSWORD)).expect("hashed");
    assert!(row.password_hash.to_sql().starts_with("$argon2id$v=19$"));
    assert_ne!(row.password_hash.to_sql(), PASSWORD);
    assert!(row.password_hash.verify(PASSWORD).is_ok());
}

#[test]
fn lookups_that_fail_answer_404() {
    assert!(me(Err(DbError::NotFound)).is_none());
    assert!(get_profile(Err(DbError::NotFound)).is_none());
}

#[test]
fn register_form_errors_follow_field_order() {
    let errors = form("a", "nope", "short").validate().unwrap_err().errors;
    assert_eq!(errors.len(), 3);
    assert_eq!(errors[0].field, Field::Username);
    assert_eq!(errors[0].kind, FieldError::InvalidLength { min: 2, max: 25 });
    assert_eq!(errors[1].field, Field::Email);
    assert_eq!(errors[1].kind, FieldError::InvalidEmail);
    assert_eq!(errors[2].field, Field::Password);
    assert_eq!(errors[2].kind, FieldError::InvalidLength { min: 10, max: 50 });
    assert_eq!(errors[2].field.name(), "password");
}

#[test]
fn register_form_length_is_counted_in_bytes() {
    // Two characters of two bytes each: 4 bytes, within 2..=25.
    assert!(form("éé", EMAIL, PASSWORD).validate().is_ok());
    // 13 two-byte characters: 26 bytes, over the limit of 25.
    assert!(form(&"é".repeat(13), EMAIL, PASSWORD).validate().is_err());
    // Exactly the bounds.
    assert!(form("ab", EMAIL, &"p".repeat(50)).validate().is_ok());
    assert!(form(&"u".repeat(25), EMAIL, &"p".repeat(10)).validate().is_ok());
    assert!(form("ab", EMAIL, &"p".repeat(51)).validate().is_err());
}

#[test]
fn password_hash_checks_out_only_for_its_password() {
    let hash = HashedPassword::parse(PASSWORD).expect("hash");
    assert!(hash.to_sql().starts_with("$argon2id$v=19$"));
    assert!(hash.to_sql() != PASSWORD);
    assert!(hash.verify(PASSWORD).is_ok());
    assert!(hash.verify("wrongpassword").is_err());
    let reread = HashedPassword::from_sql(hash.to_sql().to_string());
    assert!(reread.verify(PASSWORD).is_ok());
    assert!(HashedPassword::from_sql("not a phc string".to_string())
        .verify(PASSWORD)
        .is_err());
}

#[test]
fn invalid_registrations_are_refused_before_hashing() {
    let test_cases = [
        (USERNAME, "invalid_email.com", PASSWORD),
        ("a", "test@gmail.com", PASSWORD),
        ("validname", "test@gmail.com", "too_short"),
    ];
    for (username, email, password) in test_cases {
        match registration_row(form(username, email, password)) {
            Err(RegisterRefusal::Form(errors)) => assert_eq!(errors.status(), 422),
            other => panic!("expected a form refusal, got {:?}", other),
        }
    }
    let row = registration_row(form(USERNAME, EMAIL, PASSWORD)).expect("row");
    assert_eq!(row.username, USERNAME);
    assert!(row.password_hash.verify(PASSWORD).is_ok());
}

#[test]
fn verify_refuses_strings_that_are_not_argon2_hashes() {
    for stored in ["plaintext", "", "$pbkdf2-sha256$i=1$c2FsdA$aGFzaA", "$argon2id", "$"] {
        assert!(HashedPassword::from_sql(stored.to_string()).verify(stored).is_err());
        assert!(HashedPassword::from_sql(stored.to_string()).verify(PASSWORD).is_err());
    }
}
