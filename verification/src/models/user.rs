//! Users: the stored record, its public profile, the sign-in and
//! registration forms, and the password hash.
use vstd::prelude::*;

use argon2::password_hash::{rand_core::OsRng, PasswordHasher, PasswordVerifier, SaltString};
use argon2::Argon2;

use crate::form::{
    byte_len, collect, len_errors, validate_len, Field, FieldError, FormError, FormErrors,
};
use crate::models::Timestamp;

verus! {

/// The error type of the `password-hash` traits that `argon2` implements.
#[verifier::external_type_specification]
#[verifier::external_body]
pub struct ExPasswordHashError(argon2::password_hash::Error);

/// Whether `Argon2::default().verify_password` accepts `password` against
/// the PHC string `hash` (after `PasswordHash::new` has parsed it).
pub uninterp spec fn argon2_verifies(hash: Seq<char>, password: Seq<char>) -> bool;

/// Whether `validator::validate_email` accepts `email`.
pub uninterp spec fn validator_accepts_email(email: Seq<char>) -> bool;

/// How every PHC string of an Argon2 hash made with default parameters
/// begins: the algorithm Argon2id, then version 19 (0x13).
pub const PHC_PREFIX: &'static str = "$argon2id$v=19$";

/// The longest password that Argon2 hashes, in bytes.
pub const MAX_PASSWORD_BYTES: usize = 0xFFFF_FFFF;

/// Hashes `password` with Argon2 (default parameters) and a fresh salt
/// drawn from `OsRng`, and writes the hash as a PHC string. With default
/// parameters and a 16-byte salt, hashing fails only for a password longer
/// than 0xFFFFFFFF bytes. The salt is random, so of the string only this is
/// claimed: it begins with `$argon2id$v=19$` (algorithm and version, which
/// `Display` writes first), and `verify_password` accepts `password`
/// against it, since verification recomputes the hash from the algorithm,
/// version, parameters and salt that the string records and compares the
/// outputs.
#[verifier::external_body]
fn argon2_hash_with_random_salt(password: &str) -> (r: Result<String, argon2::password_hash::Error>)
    ensures
        byte_len(password@) <= MAX_PASSWORD_BYTES ==> r is Ok,
        r matches Ok(hash) ==> argon2_verifies(hash@, password@) && PHC_PREFIX@.is_prefix_of(
            hash@,
        ),
{
    let salt = SaltString::generate(&mut OsRng);
    let hash = Argon2::default().hash_password(password.as_bytes(), &salt)?;
    Ok(hash.to_string())
}

/// `s` begins as the PHC string of an Argon2 hash does: `$`, the name of
/// one of the three Argon2 algorithms, and the `$` before the next field.
pub open spec fn has_argon2_phc_start(s: Seq<char>) -> bool {
    ||| "$argon2d$"@.is_prefix_of(s)
    ||| "$argon2i$"@.is_prefix_of(s)
    ||| "$argon2id$"@.is_prefix_of(s)
}

/// Parses `hash` with `PasswordHash::new` and checks `password` against it
/// with `Argon2::default().verify_password`; succeeds exactly when both
/// succeed, which is a function of the two strings alone. `PasswordHash::new`
/// refuses a string that does not begin with `$`; Argon2 refuses an
/// algorithm other than `argon2d`, `argon2i` or `argon2id`, and
/// `verify_password` refuses a hash without salt and output fields, which
/// follow the algorithm after a further `$`. The rest of the PHC grammar is
/// left to the name.
#[verifier::external_body]
fn argon2_verify(hash: &str, password: &str) -> (r: Result<(), argon2::password_hash::Error>)
    ensures
        r is Ok <==> argon2_verifies(hash@, password@),
        !(hash@.len() > 0 && hash@[0] == '$') ==> r is Err,
        !has_argon2_phc_start(hash@) ==> r is Err,
{
    let parsed = argon2::password_hash::PasswordHash::new(hash)?;
    Argon2::default().verify_password(password.as_bytes(), &parsed)
}

/// Calls `validator::validate_email`, which refuses, before anything else,
/// an address without an `@`.
#[verifier::external_body]
fn validator_validate_email(email: &str) -> (r: bool)
    ensures
        r == validator_accepts_email(email@),
        !email@.contains('@') ==> !r,
{
    validator::validate_email(email)
}

/// A stored user.
#[derive(Debug)]
pub struct User {
    pub id: i32,
    pub username: String,
    pub email: String,
    pub password_hash: HashedPassword,
    pub created_at: Timestamp,
}

/// What anyone may see of a user.
#[derive(Debug)]
pub struct Profile {
    pub id: i32,
    pub username: String,
    pub created_at: Timestamp,
}

impl User {
    /// The user's public profile.
    pub fn to_profile(&self) -> (r: Profile)
        ensures
            r.id == self.id,
            r.username@ == self.username@,
            r.created_at == self.created_at,
    {
        Profile { id: self.id, username: self.username.clone(), created_at: self.created_at }
    }
}

/// The sign-in form.
#[derive(Debug)]
pub struct Login<'r> {
    pub username: &'r str,
    pub password: &'r str,
}

/// The registration form.
#[derive(Debug)]
pub struct RegisterData {
    pub username: String,
    pub email: String,
    pub password: String,
}

/// The least and greatest length in bytes of a username.
pub const USERNAME_MIN_LEN: u64 = 2;
pub const USERNAME_MAX_LEN: u64 = 25;

/// The least and greatest length in bytes of a password.
pub const PASSWORD_MIN_LEN: u64 = 10;
pub const PASSWORD_MAX_LEN: u64 = 50;

/// The errors that the registration form gives: the username must be 2 to
/// 25 bytes long, the email an address that `validator` accepts, the
/// password 10 to 50 bytes long.
pub open spec fn register_form_errors(
    username: Seq<char>,
    email: Seq<char>,
    password: Seq<char>,
) -> Seq<FormError> {
    len_errors(Field::Username, byte_len(username), USERNAME_MIN_LEN, USERNAME_MAX_LEN) + (if validator_accepts_email(email) {
        Seq::<FormError>::empty()
    } else {
        seq![FormError { field: Field::Email, kind: FieldError::InvalidEmail }]
    }) + len_errors(Field::Password, byte_len(password), PASSWORD_MIN_LEN, PASSWORD_MAX_LEN)
}

/// Checks that `email` is an email address.
pub fn validate_email(email: &str) -> (r: Result<(), FieldError>)
    ensures
        r is Ok <==> validator_accepts_email(email@),
        r is Err ==> r == Err::<(), FieldError>(FieldError::InvalidEmail),
        !email@.contains('@') ==> r is Err,
{
    if !validator_validate_email(email) {
        return Err(FieldError::InvalidEmail);
    }
    Ok(())
}

impl RegisterData {
    /// Checks the form's rules; a refused form lists each broken rule in
    /// the order of the fields.
    pub fn validate(&self) -> (r: Result<(), FormErrors>)
        ensures
            r is Ok <==> register_form_errors(self.username@, self.email@, self.password@).len()
                == 0,
            r matches Err(e) ==> e.errors@ == register_form_errors(
                self.username@,
                self.email@,
                self.password@,
            ),
            r is Ok <==> (2 <= byte_len(self.username@) && byte_len(self.username@) <= 25
                && validator_accepts_email(self.email@) && 10 <= byte_len(self.password@)
                && byte_len(self.password@) <= 50),
            !validator_accepts_email(self.email@) ==> (r matches Err(e) && e.errors@.contains(
                (FormError { field: Field::Email, kind: FieldError::InvalidEmail }),
            )),
    {
        proof {
            law_register_form_rules(self.username@, self.email@, self.password@);
        }
        let mut errors: Vec<FormError> = Vec::new();
        collect(
            &mut errors,
            Field::Username,
            validate_len(self.username.as_str(), USERNAME_MIN_LEN, USERNAME_MAX_LEN),
        );
        collect(&mut errors, Field::Email, validate_email(self.email.as_str()));
        collect(
            &mut errors,
            Field::Password,
            validate_len(self.password.as_str(), PASSWORD_MIN_LEN, PASSWORD_MAX_LEN),
        );
        assert(errors@ =~= register_form_errors(self.username@, self.email@, self.password@));
        if errors.len() == 0 {
            Ok(())
        } else {
            Err(FormErrors { errors })
        }
    }
}

/// A registration form is accepted exactly when its username is 2 to 25
/// bytes long, `validator` accepts its email, and its password is 10 to 50
/// bytes long; an email that `validator` refuses is reported as such.
pub proof fn law_register_form_rules(username: Seq<char>, email: Seq<char>, password: Seq<char>)
    ensures
        register_form_errors(username, email, password).len() == 0 <==> (2 <= byte_len(username)
            && byte_len(username) <= 25 && validator_accepts_email(email) && 10 <= byte_len(
            password,
        ) && byte_len(password) <= 50),
        !validator_accepts_email(email) ==> register_form_errors(username, email, password).contains(
            (FormError { field: Field::Email, kind: FieldError::InvalidEmail }),
        ),
{
    let errs = register_form_errors(username, email, password);
    let u = len_errors(Field::Username, byte_len(username), USERNAME_MIN_LEN, USERNAME_MAX_LEN);
    if !validator_accepts_email(email) {
        assert(errs[u.len() as int] == FormError { field: Field::Email, kind: FieldError::InvalidEmail });
    }
}

/// An Argon2 hash of a password, as a PHC string.
#[derive(Debug)]
pub struct HashedPassword(String);

impl View for HashedPassword {
    type V = Seq<char>;

    closed spec fn view(&self) -> Seq<char> {
        self.0@
    }
}

/// Why hashing or checking a password failed.
#[derive(Clone, Copy, Debug, PartialEq, Eq, Structural)]
pub enum PasswordError {
    /// The password could not be hashed.
    HashFailed,
    /// The password does not match the hash, or the hash is not a PHC string.
    Rejected,
}

/// `hash` is a hash against which `password` checks out.
pub open spec fn hashes(hash: HashedPassword, password: Seq<char>) -> bool {
    argon2_verifies(hash@, password)
}

impl HashedPassword {
    /// Hashes `raw_password` with Argon2 and a fresh random salt.
    pub fn parse(raw_password: &str) -> (r: Result<HashedPassword, PasswordError>)
        ensures
            byte_len(raw_password@) <= MAX_PASSWORD_BYTES ==> r is Ok,
            r matches Ok(h) ==> hashes(h, raw_password@) && PHC_PREFIX@.is_prefix_of(h@),
            r is Err ==> r == Err::<HashedPassword, PasswordError>(PasswordError::HashFailed),
    {
        match argon2_hash_with_random_salt(raw_password) {
            Ok(hash) => Ok(HashedPassword(hash)),
            Err(_) => Err(PasswordError::HashFailed),
        }
    }

    /// Checks `raw_password` against the hash.
    pub fn verify(&self, raw_password: &str) -> (r: Result<(), PasswordError>)
        ensures
            r is Ok <==> hashes(*self, raw_password@),
            !(self@.len() > 0 && self@[0] == '$') ==> r is Err,
            !has_argon2_phc_start(self@) ==> r is Err,
            r is Err ==> r == Err::<(), PasswordError>(PasswordError::Rejected),
    {
        match argon2_verify(self.0.as_str(), raw_password) {
            Ok(()) => Ok(()),
            Err(_) => Err(PasswordError::Rejected),
        }
    }

    /// The hash read back from its text column.
    pub fn from_sql(text: String) -> (r: HashedPassword)
        ensures
            r@ == text@,
    {
        HashedPassword(text)
    }

    /// The text stored in the hash's column.
    pub fn to_sql(&self) -> (r: &str)
        ensures
            r@ == self@,
    {
        self.0.as_str()
    }
}

/// The values of a new user's row.
#[derive(Debug)]
pub struct NewUser {
    pub username: String,
    pub email: String,
    pub password_hash: HashedPassword,
}

impl NewUser {
    /// The row for a registration form: its username and email, and a hash
    /// of its password.
    pub fn try_from(values: RegisterData) -> (r: Result<NewUser, PasswordError>)
        ensures
            byte_len(values.password@) <= MAX_PASSWORD_BYTES ==> r is Ok,
            r matches Ok(u) ==> u.username@ == values.username@ && u.email@ == values.email@
                && hashes(u.password_hash, values.password@) && PHC_PREFIX@.is_prefix_of(
                u.password_hash@,
            ),
            r is Err ==> r == Err::<NewUser, PasswordError>(PasswordError::HashFailed),
    {
        let password_hash = HashedPassword::parse(values.password.as_str())?;
        Ok(NewUser { username: values.username, email: values.email, password_hash })
    }
}

} // verus!
