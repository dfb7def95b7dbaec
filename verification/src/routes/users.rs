//! The user endpoints: registration, sign-in, sign-out and profiles. Each
//! handler's decisions stand here; the database queries and the cookie jar
//! stay with the server, which hands over what they returned.
use vstd::prelude::*;

use crate::auth::{auth_outcome, end_session, is_session_cookie, session_cookie, Auth, CookieAction};
use crate::database::{db_error_text, DbError};
use crate::decimal::{decimal, format_i32};
use crate::form::{byte_len, FormErrors};
use crate::models::user::{
    hashes, register_form_errors, validator_accepts_email, Login, NewUser, Profile, RegisterData, User,
    MAX_PASSWORD_BYTES, PHC_PREFIX,
};
use crate::routes::Endpoint;
use crate::status;

verus! {

/// The message of a registration whose username is taken.
pub const DUPLICATE_USERNAME: &'static str = "A user with that username already exists";

/// The message of a registration whose email is taken.
pub const DUPLICATE_EMAIL: &'static str = "A user with that email already exists";

/// The unique constraint on usernames.
pub const USERNAME_CONSTRAINT: &'static str = "users_username_key";

/// The unique constraint on emails.
pub const EMAIL_CONSTRAINT: &'static str = "users_email_key";

/// The body of the answer to a sign-in with an unknown username.
pub const UNKNOWN_USER_BODY: &'static str = "User doesn't exist";

/// The message of a failed user lookup.
pub const LOOKUP_FAILED: &'static str = "User with this username doesn't exist";

/// The message of a registration whose password could not be hashed.
pub const HASH_FAILED: &'static str = "Failed to hash password.";

/// Where the user endpoints are mounted.
pub const USERS_BASE: &'static str = "/api/users";

/// Why a user endpoint refused a request.
#[derive(Debug)]
pub enum UserError {
    /// The username or the email is already taken.
    DuplicatedUser(&'static str),
    /// No user has the given username.
    UnknownUser,
    /// The password does not match.
    InvalidPassword,
    /// Anything else, with its message.
    UnexpectedError(String),
}

/// What a handler answers for a refused request: its status, and the text
/// of the body where it has one.
#[derive(Debug)]
pub struct ErrorResponse {
    pub status: u16,
    pub body: Option<String>,
}

/// The message of the taken field when the database error `e` is a broken
/// unique constraint on usernames or emails.
pub open spec fn duplicate_of(e: DbError) -> Option<&'static str> {
    match e {
        DbError::UniqueViolation { constraint_name: Some(name), .. } => {
            if name@ == USERNAME_CONSTRAINT@ {
                Some(DUPLICATE_USERNAME)
            } else if name@ == EMAIL_CONSTRAINT@ {
                Some(DUPLICATE_EMAIL)
            } else {
                None
            }
        },
        _ => None,
    }
}

/// `r` is the user error that the database error `e` becomes: a broken
/// unique constraint on usernames or emails names the taken field; anything
/// else is unexpected and keeps the database's message.
pub open spec fn is_user_error_of(r: UserError, e: DbError) -> bool {
    match duplicate_of(e) {
        Some(msg) => r == UserError::DuplicatedUser(msg),
        None => r matches UserError::UnexpectedError(m) && m@ == db_error_text(e),
    }
}

impl UserError {
    /// The user error that a database error becomes.
    pub fn from(err: DbError) -> (r: UserError)
        ensures
            is_user_error_of(r, err),
    {
        let message = err.message();
        match err {
            DbError::UniqueViolation { constraint_name: Some(name), .. } => {
                if name.eq(&String::from_str(USERNAME_CONSTRAINT)) {
                    UserError::DuplicatedUser(DUPLICATE_USERNAME)
                } else if name.eq(&String::from_str(EMAIL_CONSTRAINT)) {
                    UserError::DuplicatedUser(DUPLICATE_EMAIL)
                } else {
                    UserError::UnexpectedError(message)
                }
            },
            _ => UserError::UnexpectedError(message),
        }
    }

    /// The answer to the refused request: 422 with the message for a taken
    /// username or email, 404 with "User doesn't exist" for an unknown
    /// user, 401 for a wrong password, 500 for anything else.
    pub fn respond_to(&self) -> (r: ErrorResponse)
        ensures
            match self {
                UserError::DuplicatedUser(msg) => r.status == status::UNPROCESSABLE_ENTITY && (
                r.body matches Some(b) && b@ == msg@),
                UserError::UnknownUser => r.status == status::NOT_FOUND && (r.body matches Some(b)
                    && b@ == UNKNOWN_USER_BODY@),
                UserError::InvalidPassword => r.status == status::UNAUTHORIZED && r.body is None,
                UserError::UnexpectedError(_) => r.status == status::INTERNAL_SERVER_ERROR
                    && r.body is None,
            },
    {
        match self {
            UserError::DuplicatedUser(msg) => ErrorResponse {
                status: status::UNPROCESSABLE_ENTITY,
                body: Some(String::from_str(msg)),
            },
            UserError::UnknownUser => ErrorResponse {
                status: status::NOT_FOUND,
                body: Some(String::from_str(UNKNOWN_USER_BODY)),
            },
            UserError::InvalidPassword => ErrorResponse {
                status: status::UNAUTHORIZED,
                body: None,
            },
            UserError::UnexpectedError(_) => ErrorResponse {
                status: status::INTERNAL_SERVER_ERROR,
                body: None,
            },
        }
    }

    /// The error's message.
    pub fn message(&self) -> (r: String)
        ensures
            r@ == match self {
                UserError::DuplicatedUser(msg) => msg@,
                UserError::UnknownUser => "There is no user associated with the provided username."@,
                UserError::InvalidPassword => "Invalid password."@,
                UserError::UnexpectedError(m) => m@,
            },
    {
        match self {
            UserError::DuplicatedUser(msg) => String::from_str(msg),
            UserError::UnknownUser => String::from_str(
                "There is no user associated with the provided username.",
            ),
            UserError::InvalidPassword => String::from_str("Invalid password."),
            UserError::UnexpectedError(m) => m.clone(),
        }
    }
}

/// The path of user `id`'s profile.
pub open spec fn profile_location(id: i32) -> Seq<char> {
    USERS_BASE@ + "/"@ + decimal(id as int)
}

/// The path of user `id`'s profile: `/api/users/<id>`.
pub fn profile_uri(id: i32) -> (r: String)
    ensures
        r@ == profile_location(id),
        r@ == "/api/users/"@ + decimal(id as int),
{
    proof {
        reveal_strlit("/api/users");
        reveal_strlit("/");
        reveal_strlit("/api/users/");
        assert("/api/users"@ + "/"@ =~= "/api/users/"@);
    }
    let mut r = String::from_str(USERS_BASE);
    r.append("/");
    let digits = format_i32(id);
    r.append(digits.as_str());
    proof {
        assert(r@ =~= profile_location(id));
    }
    r
}

/// The row that a registration form asks for; a password that cannot be
/// hashed ends the registration with an unexpected error.
pub fn new_user(values: RegisterData) -> (r: Result<NewUser, UserError>)
    ensures
        byte_len(values.password@) <= MAX_PASSWORD_BYTES ==> r is Ok,
        r matches Ok(u) ==> u.username@ == values.username@ && u.email@ == values.email@
            && hashes(u.password_hash, values.password@) && PHC_PREFIX@.is_prefix_of(
            u.password_hash@,
        ),
        r matches Err(e) ==> e matches UserError::UnexpectedError(m) && m@ == HASH_FAILED@,
{
    match NewUser::try_from(values) {
        Ok(u) => Ok(u),
        Err(_) => Err(UserError::UnexpectedError(String::from_str(HASH_FAILED))),
    }
}

/// Why a registration was refused before anything was written: its form
/// broke a rule (answered 422), or its password could not be hashed.
#[derive(Debug)]
pub enum RegisterRefusal {
    Form(FormErrors),
    User(UserError),
}

/// The row that a registration request inserts: a refused form is answered
/// with its errors before any hashing or write; otherwise the row of
/// `new_user`.
pub fn registration_row(values: RegisterData) -> (r: Result<NewUser, RegisterRefusal>)
    ensures
        (r matches Err(RegisterRefusal::Form(_))) <==> register_form_errors(
            values.username@,
            values.email@,
            values.password@,
        ).len() > 0,
        r matches Err(RegisterRefusal::Form(e)) ==> e.errors@ == register_form_errors(
            values.username@,
            values.email@,
            values.password@,
        ),
        register_form_errors(values.username@, values.email@, values.password@).len() == 0
            && byte_len(values.password@) <= MAX_PASSWORD_BYTES ==> r is Ok,
        (r matches Err(RegisterRefusal::Form(_))) <==> !(2 <= byte_len(values.username@)
            && byte_len(values.username@) <= 25 && validator_accepts_email(values.email@) && 10
            <= byte_len(values.password@) && byte_len(values.password@) <= 50),
        r matches Ok(u) ==> u.username@ == values.username@ && u.email@ == values.email@
            && hashes(u.password_hash, values.password@) && PHC_PREFIX@.is_prefix_of(
            u.password_hash@,
        ),
        r matches Err(RegisterRefusal::User(e)) ==> e matches UserError::UnexpectedError(m)
            && m@ == HASH_FAILED@,
{
    match values.validate() {
        Err(e) => Err(RegisterRefusal::Form(e)),
        Ok(()) => match new_user(values) {
            Ok(u) => Ok(u),
            Err(e) => Err(RegisterRefusal::User(e)),
        },
    }
}

/// A successful registration: its status, the cookie that signs the new
/// user in, the path of their profile, and the stored user.
#[derive(Debug)]
pub struct Registered {
    pub status: u16,
    pub cookie: CookieAction,
    pub location: String,
    pub user: User,
}

/// Completes a registration from what the insert of the new row returned:
/// the stored user is signed in and answered with 201 Created at their
/// profile's path; a failed insert becomes a user error.
pub fn register(inserted: Result<User, DbError>) -> (r: Result<Registered, UserError>)
    ensures
        match inserted {
            Ok(u) => r matches Ok(reg) && reg.status == status::CREATED && is_session_cookie(
                reg.cookie,
                u.id,
            ) && reg.location@ == profile_location(u.id) && reg.location@ == "/api/users/"@
                + decimal(u.id as int) && reg.user == u && (
            reg.cookie matches CookieAction::Add { name, value } && name@ == "user_id"@
                && auth_outcome(Some(value@)) == Ok::<Auth, u16>(Auth(u.id))),
            Err(e) => r matches Err(ue) && is_user_error_of(ue, e),
        },
{
    match inserted {
        Ok(user) => {
            let cookie = session_cookie(user.id);
            let location = profile_uri(user.id);
            Ok(Registered { status: status::CREATED, cookie, location, user })
        },
        Err(e) => Err(UserError::from(e)),
    }
}

/// The user that a sign-in with `password` signs in, given what the
/// lookup of its username returned: the user found, if the password checks
/// out against their hash.
pub open spec fn signed_in_user(found: Result<Option<User>, DbError>, password: Seq<char>) -> Option<
    i32,
> {
    match found {
        Ok(Some(u)) => if hashes(u.password_hash, password) {
            Some(u.id)
        } else {
            None
        },
        _ => None,
    }
}

/// A successful sign-in: its status and the cookie that signs the user in.
#[derive(Debug)]
pub struct SignedIn {
    pub status: u16,
    pub cookie: CookieAction,
}

/// Signs a user in, given the form and what the lookup of its username
/// returned: a failed lookup is unexpected, a missing user unknown, a
/// wrong password refused; otherwise the `user_id` cookie is set to the
/// user's id, and the sign-in is answered with 202 Accepted.
pub fn login(data: &Login, found: Result<Option<User>, DbError>) -> (r: Result<
    SignedIn,
    UserError,
>)
    ensures
        match signed_in_user(found, data.password@) {
            Some(id) => r matches Ok(s) && s.status == status::ACCEPTED && is_session_cookie(
                s.cookie,
                id,
            ) && (s.cookie matches CookieAction::Add { name, value } && name@ == "user_id"@
                && auth_outcome(Some(value@)) == Ok::<Auth, u16>(Auth(id))),
            None => r is Err,
        },
        found is Err ==> (r matches Err(UserError::UnexpectedError(m)) && m@ == LOOKUP_FAILED@),
        found == Ok::<Option<User>, DbError>(None) ==> r matches Err(UserError::UnknownUser),
        found matches Ok(Some(u)) && !hashes(u.password_hash, data.password@) ==> r matches Err(
            UserError::InvalidPassword,
        ),
{
    match found {
        Err(_) => Err(UserError::UnexpectedError(String::from_str(LOOKUP_FAILED))),
        Ok(None) => Err(UserError::UnknownUser),
        Ok(Some(user)) => match user.password_hash.verify(data.password) {
            Ok(()) => Ok(SignedIn { status: status::ACCEPTED, cookie: session_cookie(user.id) }),
            Err(_) => Err(UserError::InvalidPassword),
        },
    }
}

/// The signed-in user's own record, or 404 when the lookup failed.
pub fn me(found: Result<User, DbError>) -> (r: Option<User>)
    ensures
        match found {
            Ok(u) => r == Some(u),
            Err(_) => r is None,
        },
{
    match found {
        Ok(user) => Some(user),
        Err(_) => None,
    }
}

/// The profile of the user looked up by id, or 404 when the lookup failed.
pub fn get_profile(found: Result<User, DbError>) -> (r: Option<Profile>)
    ensures
        match found {
            Ok(u) => r matches Some(p) && p.id == u.id && p.username@ == u.username@
                && p.created_at == u.created_at,
            Err(_) => r is None,
        },
{
    match found {
        Ok(user) => Some(user.to_profile()),
        Err(_) => None,
    }
}

/// Signs the user out: the `user_id` cookie is removed.
pub fn logout() -> (r: CookieAction)
    ensures
        r matches CookieAction::Remove { name } && name@ == crate::auth::USER_ID_COOKIE@,
{
    end_session()
}

/// The user endpoints, in the order in which they are mounted.
pub fn routes() -> (r: Vec<Endpoint>)
    ensures
        r@ == seq![
            Endpoint::Login,
            Endpoint::Register,
            Endpoint::Me,
            Endpoint::GetProfile,
            Endpoint::Logout,
        ],
{
    let r = vec![
        Endpoint::Login,
        Endpoint::Register,
        Endpoint::Me,
        Endpoint::GetProfile,
        Endpoint::Logout,
    ];
    r
}

/// A user who registered with a password, whose row the database stored
/// with the hash as written, and who signs in with that same password, is
/// signed in as themselves; the cookie set then authenticates their later
/// requests as them.
pub proof fn law_register_then_login(
    values: RegisterData,
    row: NewUser,
    stored: User,
    password: Seq<char>,
)
    requires
        hashes(row.password_hash, values.password@),
        stored.password_hash@ == row.password_hash@,
        password == values.password@,
    ensures
        signed_in_user(Ok(Some(stored)), password) == Some(stored.id),
        auth_outcome(Some(decimal(stored.id as int))) == Ok::<Auth, u16>(Auth(stored.id)),
{
    crate::auth::law_session_cookie_authenticates(stored.id);
}

} // verus!
