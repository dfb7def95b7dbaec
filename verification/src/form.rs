//! Validation of submitted forms: the length and range rules on form
//! fields, and the errors that a refused form carries.
use vstd::prelude::*;

use crate::status;

verus! {

/// The length in bytes of the UTF-8 encoding of `s`, as `str::len`
/// returns it.
pub open spec fn byte_len(s: Seq<char>) -> usize {
    vstd::utf8::encode_utf8(s).len() as usize
}

/// A form field that carries a rule.
#[derive(Clone, Copy, Debug, PartialEq, Eq, Structural)]
pub enum Field {
    Username,
    Email,
    Password,
    Title,
    Grade,
}

/// The name of a field in the submitted form.
pub open spec fn field_name(f: Field) -> Seq<char> {
    match f {
        Field::Username => "username"@,
        Field::Email => "email"@,
        Field::Password => "password"@,
        Field::Title => "title"@,
        Field::Grade => "grade"@,
    }
}

impl Field {
    /// The field's name in the submitted form.
    pub fn name(&self) -> (r: &'static str)
        ensures
            r@ == field_name(*self),
    {
        match self {
            Field::Username => "username",
            Field::Email => "email",
            Field::Password => "password",
            Field::Title => "title",
            Field::Grade => "grade",
        }
    }
}

/// Why a field was refused.
#[derive(Clone, Copy, Debug, PartialEq, Eq, Structural)]
pub enum FieldError {
    /// The value's length lies outside `min..=max`.
    InvalidLength { min: u64, max: u64 },
    /// The value lies outside `start..=end`.
    OutOfRange { start: i64, end: i64 },
    /// The value is not an email address.
    InvalidEmail,
}

/// A refused field, and why.
#[derive(Clone, Copy, Debug, PartialEq, Eq, Structural)]
pub struct FormError {
    pub field: Field,
    pub kind: FieldError,
}

/// The errors of a refused form, in the order of the form's fields.
#[derive(Debug)]
pub struct FormErrors {
    pub errors: Vec<FormError>,
}

impl FormErrors {
    /// A refused form is answered with 422 Unprocessable Entity.
    pub fn status(&self) -> (r: u16)
        ensures
            r == status::UNPROCESSABLE_ENTITY,
    {
        status::UNPROCESSABLE_ENTITY
    }
}

/// The errors that the length rule `min..=max` gives for a value of
/// length `len`: none when it holds, else one.
pub open spec fn len_errors(field: Field, len: usize, min: u64, max: u64) -> Seq<FormError> {
    if min <= len && len <= max {
        seq![]
    } else {
        seq![FormError { field, kind: FieldError::InvalidLength { min, max } }]
    }
}

/// The errors that the range rule `start..=end` gives for `value`.
pub open spec fn range_errors(field: Field, value: int, start: i64, end: i64) -> Seq<FormError> {
    if start <= value && value <= end {
        seq![]
    } else {
        seq![FormError { field, kind: FieldError::OutOfRange { start, end } }]
    }
}

/// Checks that the length in bytes of `value` lies in `min..=max`.
pub fn validate_len(value: &str, min: u64, max: u64) -> (r: Result<(), FieldError>)
    ensures
        r is Ok <==> (min <= byte_len(value@) && byte_len(value@) <= max),
        r is Err ==> r == Err::<(), FieldError>(FieldError::InvalidLength { min, max }),
{
    let n = value.len();
    if (n as u64) < min || (n as u64) > max {
        Err(FieldError::InvalidLength { min, max })
    } else {
        Ok(())
    }
}

/// Checks that `value` lies in `start..=end`.
pub fn validate_range(value: i32, start: i64, end: i64) -> (r: Result<(), FieldError>)
    ensures
        r is Ok <==> (start <= value && value <= end),
        r is Err ==> r == Err::<(), FieldError>(FieldError::OutOfRange { start, end }),
{
    if (value as i64) < start || (value as i64) > end {
        Err(FieldError::OutOfRange { start, end })
    } else {
        Ok(())
    }
}

/// Appends the error of `field` to `errors` when `checked` failed.
pub fn collect(errors: &mut Vec<FormError>, field: Field, checked: Result<(), FieldError>)
    ensures
        final(errors)@ == match checked {
            Ok(()) => old(errors)@,
            Err(kind) => old(errors)@.push(FormError { field, kind }),
        },
{
    match checked {
        Ok(()) => {},
        Err(kind) => errors.push(FormError { field, kind }),
    }
}

} // verus!
