//! Who is asking: the user id carried in the private `user_id` cookie.
use vstd::prelude::*;

use crate::decimal::{decimal, format_i32, parse_i32, parse_i32_spec};
use crate::status;

verus! {

/// The name of the private cookie that holds the signed-in user's id.
pub const USER_ID_COOKIE: &'static str = "user_id";

/// A request made by the signed-in user with this id.
#[derive(Clone, Copy, Debug, PartialEq, Eq, Structural)]
pub struct Auth(pub i32);

/// What the authentication of a request gives for the value of its
/// `user_id` cookie (`None` when it carries none): the user whose id the
/// value spells, or 403 Forbidden.
pub open spec fn auth_outcome(cookie: Option<Seq<char>>) -> Result<Auth, u16> {
    match cookie {
        Some(value) => match parse_i32_spec(value) {
            Some(id) => Ok(Auth(id)),
            None => Err(status::FORBIDDEN),
        },
        None => Err(status::FORBIDDEN),
    }
}

impl Auth {
    /// Authenticates a request from the value of its private `user_id`
    /// cookie, if it carries one: the cookie must hold the decimal text of
    /// an `i32`, else the request is refused with 403 Forbidden.
    pub fn from_request(cookie: Option<&str>) -> (r: Result<Auth, u16>)
        ensures
            r == auth_outcome(
                match cookie {
                    Some(v) => Some(v@),
                    None => None,
                },
            ),
    {
        match cookie {
            Some(value) => match parse_i32(value) {
                Some(id) => Ok(Auth(id)),
                None => Err(status::FORBIDDEN),
            },
            None => Err(status::FORBIDDEN),
        }
    }
}

/// A change to the client's cookies that a response carries.
#[derive(Debug)]
pub enum CookieAction {
    /// Add (or replace) the private cookie `name` to `value`.
    Add { name: String, value: String },
    /// Remove the private cookie `name`.
    Remove { name: String },
}

impl CookieAction {
    /// The name of the cookie that the action changes.
    pub fn name(&self) -> (r: &str)
        ensures
            r@ == match self {
                CookieAction::Add { name, .. } => name@,
                CookieAction::Remove { name } => name@,
            },
    {
        match self {
            CookieAction::Add { name, .. } => name.as_str(),
            CookieAction::Remove { name } => name.as_str(),
        }
    }

    /// The value that the cookie holds after the action: empty once
    /// removed.
    pub fn value(&self) -> (r: String)
        ensures
            r@ == match self {
                CookieAction::Add { value, .. } => value@,
                CookieAction::Remove { .. } => Seq::<char>::empty(),
            },
    {
        match self {
            CookieAction::Add { value, .. } => value.clone(),
            CookieAction::Remove { .. } => String::new(),
        }
    }
}

/// The cookie that signs in the user `id`: `user_id` set to the decimal
/// text of `id`.
pub open spec fn is_session_cookie(c: CookieAction, id: i32) -> bool {
    c matches CookieAction::Add { name, value } && name@ == USER_ID_COOKIE@ && value@ == decimal(
        id as int,
    )
}

/// Sets the `user_id` cookie to the decimal text of `id`.
pub fn session_cookie(id: i32) -> (r: CookieAction)
    ensures
        is_session_cookie(r, id),
        r matches CookieAction::Add { name, value } && name@ == "user_id"@ && auth_outcome(
            Some(value@),
        ) == Ok::<Auth, u16>(Auth(id)),
{
    proof {
        crate::decimal::lemma_parse_decimal(id);
    }
    CookieAction::Add { name: String::from_str(USER_ID_COOKIE), value: format_i32(id) }
}

/// Removes the `user_id` cookie.
pub fn end_session() -> (r: CookieAction)
    ensures
        r matches CookieAction::Remove { name } && name@ == USER_ID_COOKIE@,
{
    CookieAction::Remove { name: String::from_str(USER_ID_COOKIE) }
}

/// A request that carries the cookie set when user `id` signed in is
/// authenticated as that user.
pub proof fn law_session_cookie_authenticates(id: i32)
    ensures
        auth_outcome(Some(decimal(id as int))) == Ok::<Auth, u16>(Auth(id)),
{
    crate::decimal::lemma_parse_decimal(id);
}

/// Whatever cookie counts as the session cookie of user `id` sets the
/// `user_id` cookie to a value that authenticates exactly that user.
pub proof fn law_session_cookie_is_read_back(c: CookieAction, id: i32)
    requires
        is_session_cookie(c, id),
    ensures
        c matches CookieAction::Add { name, value } && name@ == "user_id"@ && auth_outcome(
            Some(value@),
        ) == Ok::<Auth, u16>(Auth(id)),
{
    crate::decimal::lemma_parse_decimal(id);
}

/// A request without the `user_id` cookie, as after signing out, is
/// refused with 403 Forbidden.
pub proof fn law_no_cookie_forbidden()
    ensures
        auth_outcome(None) == Err::<Auth, u16>(status::FORBIDDEN),
{
}

} // verus!
