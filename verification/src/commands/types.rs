//! Input validation shared by every command, pagination parameters, and
//! the validation limits exposed to the frontend.
//!
//! The frontend's checks are a convenience; these are the ones enforced.

use vstd::prelude::*;
use vstd::string::*;
use crate::crypto::random::uuid_with_bytes;
use crate::error::KestrelError;
use crate::text::{contains_char, decimal, is_blank, is_blank_spec, push_decimal};
use crate::scanner::password_strength::ascii_lower_bytes;

verus! {

/// The answer to a command: its data, or a message safe to show the user.
#[derive(Debug)]
pub enum CommandResult<T> {
    /// The command succeeded.
    Success {
        /// What it returns.
        data: T,
    },
    /// The command failed.
    Failure {
        /// The message for the user.
        error: String,
    },
}

impl<T> CommandResult<T> {
    /// A successful answer.
    pub fn ok(data: T) -> (r: Self)
        ensures
            r == (CommandResult::Success { data }),
    {
        CommandResult::Success { data }
    }

    /// A failed answer with the given message.
    pub fn err(error: String) -> (r: Self)
        ensures
            r == (CommandResult::<T>::Failure { error }),
    {
        CommandResult::Failure { error }
    }
}

/// One page of results and whether more follow.
#[derive(Debug)]
pub struct PaginatedResponse<T> {
    /// The items of this page.
    pub items: Vec<T>,
    /// How many items match in all.
    pub total_count: i64,
    /// Whether more items follow this page.
    pub has_more: bool,
}

/// Validation limits shared with the frontend.
pub struct ValidationRules;

impl ValidationRules {
    /// Maximum title length.
    pub const MAX_TITLE_LEN: usize = 256;
    /// Maximum username length.
    pub const MAX_USERNAME_LEN: usize = 256;
    /// Maximum password length.
    pub const MAX_PASSWORD_LEN: usize = 1024;
    /// Maximum notes length.
    pub const MAX_NOTES_LEN: usize = 10_000;
    /// Maximum URL length.
    pub const MAX_URL_LEN: usize = 2048;
    /// Maximum search query length.
    pub const MAX_QUERY_LEN: usize = 256;
    /// Maximum password hint length.
    pub const MAX_HINT_LEN: usize = 100;
    /// Minimum master password length.
    pub const MIN_MASTER_PASSWORD_LEN: usize = 8;
    /// Maximum folder name length.
    pub const MAX_FOLDER_NAME_LEN: usize = 128;
    /// Maximum tag length.
    pub const MAX_TAG_LEN: usize = 64;
    /// Maximum number of tags per entry.
    pub const MAX_TAGS_PER_ENTRY: usize = 20;
    /// Maximum payload size in bytes (1 MiB).
    pub const MAX_PAYLOAD_BYTES: usize = 1_048_576;
}

/// The error is a validation error with exactly this message.
pub open spec fn is_validation_error(e: KestrelError, msg: Seq<char>) -> bool {
    e is Validation && e.message() == msg
}

/// The result is `Ok`, or the validation error with this message.
pub open spec fn checked<T>(r: Result<T, KestrelError>, failure: Option<Seq<char>>) -> bool {
    match failure {
        Some(m) => r matches Err(e) && is_validation_error(e, m),
        None => r is Ok,
    }
}

/// Pagination parameters of list and query commands.
#[derive(Clone, Copy, Debug, PartialEq, Eq, Structural)]
pub struct PaginationRequest {
    /// Maximum number of results (1..=1000).
    pub limit: i64,
    /// Number of results to skip (non-negative).
    pub offset: i64,
}

/// Why pagination parameters are refused, if they are.
pub open spec fn pagination_failure(p: PaginationRequest) -> Option<Seq<char>> {
    if p.limit < 1 {
        Some("Limit must be at least 1"@)
    } else if p.limit > 1000 {
        Some("Limit too large (max 1000)"@)
    } else if p.offset < 0 {
        Some("Offset must be non-negative"@)
    } else {
        None
    }
}

impl Default for PaginationRequest {
    /// Fifty results from the start.
    fn default() -> (p: Self)
        ensures
            p.limit == 50 && p.offset == 0,
    {
        PaginationRequest { limit: 50, offset: 0 }
    }
}

impl PaginationRequest {
    /// Checks that the limit is within 1..=1000 and the offset is not negative.
    pub fn validate(&self) -> (r: Result<(), KestrelError>)
        ensures
            checked(r, pagination_failure(*self)),
    {
        if self.limit < 1 {
            return Err(KestrelError::Validation(String::from_str("Limit must be at least 1")));
        }
        if self.limit > 1000 {
            return Err(KestrelError::Validation(String::from_str("Limit too large (max 1000)")));
        }
        if self.offset < 0 {
            return Err(KestrelError::Validation(String::from_str("Offset must be non-negative")));
        }
        Ok(())
    }
}

/// The message for a field that holds a null byte.
pub open spec fn null_byte_failure(s: Seq<char>, field: Seq<char>) -> Option<Seq<char>> {
    if s.contains('\0') {
        Some(field + " must not contain null bytes"@)
    } else {
        None
    }
}

/// The message for a field whose byte length is outside `min..=max`.
pub open spec fn length_failure(byte_len: nat, min: nat, max: nat, field: Seq<char>) -> Option<Seq<char>> {
    if byte_len < min {
        Some(field + " must be at least "@ + decimal(min) + " characters"@)
    } else if byte_len > max {
        Some(field + " must be at most "@ + decimal(max) + " characters"@)
    } else {
        None
    }
}

/// The message for a blank field.
pub open spec fn blank_failure(s: Seq<char>, field: Seq<char>) -> Option<Seq<char>> {
    if is_blank_spec(s) {
        Some(field + " must not be blank"@)
    } else {
        None
    }
}

/// The first failing check of a string field: blankness (unless blank
/// values are allowed, in which case the empty string passes at once),
/// null bytes, then length.
pub open spec fn string_field_failure(
    s: Seq<char>,
    byte_len: nat,
    min: nat,
    max: nat,
    field: Seq<char>,
    allow_blank: bool,
) -> Option<Seq<char>> {
    if !allow_blank && blank_failure(s, field) is Some {
        blank_failure(s, field)
    } else if allow_blank && s.len() == 0 {
        None
    } else if null_byte_failure(s, field) is Some {
        null_byte_failure(s, field)
    } else {
        length_failure(byte_len, min, max, field)
    }
}

/// Rejects a string that contains a null byte (which would truncate it in
/// downstream systems).
pub fn validate_no_null_bytes(s: &str, field_name: &str) -> (r: Result<(), KestrelError>)
    ensures
        checked(r, null_byte_failure(s@, field_name@)),
{
    if contains_char(s, '\0') {
        let mut m = field_name.to_string();
        m.append(" must not contain null bytes");
        return Err(KestrelError::Validation(m));
    }
    Ok(())
}

/// Rejects a string whose length in bytes is below `min` or above `max`.
pub fn validate_string_length(s: &str, min: usize, max: usize, field_name: &str) -> (r: Result<(), KestrelError>)
    ensures
        checked(r, length_failure(s.spec_bytes().len(), min as nat, max as nat, field_name@)),
{
    let len = s.as_bytes().len();
    if len < min {
        let mut m = field_name.to_string();
        m.append(" must be at least ");
        push_decimal(&mut m, min as u64);
        m.append(" characters");
        return Err(KestrelError::Validation(m));
    }
    if len > max {
        let mut m = field_name.to_string();
        m.append(" must be at most ");
        push_decimal(&mut m, max as u64);
        m.append(" characters");
        return Err(KestrelError::Validation(m));
    }
    Ok(())
}

/// Rejects an empty or whitespace-only string.
pub fn validate_not_blank(s: &str, field_name: &str) -> (r: Result<(), KestrelError>)
    ensures
        checked(r, blank_failure(s@, field_name@)),
{
    if is_blank(s) {
        let mut m = field_name.to_string();
        m.append(" must not be blank");
        return Err(KestrelError::Validation(m));
    }
    Ok(())
}

/// Runs the blank, null-byte and length checks on a string field, in that
/// order, and reports the first failure. With `allow_blank`, the empty
/// string is accepted without further checks.
pub fn validate_string_field(s: &str, min: usize, max: usize, field_name: &str, allow_blank: bool) -> (r: Result<(), KestrelError>)
    ensures
        checked(r, string_field_failure(s@, s.spec_bytes().len(), min as nat, max as nat, field_name@, allow_blank)),
{
    if !allow_blank {
        validate_not_blank(s, field_name)?;
    } else if s.unicode_len() == 0 {
        return Ok(());
    }
    validate_no_null_bytes(s, field_name)?;
    validate_string_length(s, min, max, field_name)?;
    Ok(())
}

/// The standard check of a command's text field: no null bytes and at most
/// `max_len` bytes; the empty string is accepted.
pub fn validate_field(value: &str, max_len: usize, field_name: &str) -> (r: Result<(), KestrelError>)
    ensures
        checked(r, string_field_failure(value@, value.spec_bytes().len(), 0, max_len as nat, field_name@, true)),
{
    validate_string_field(value, 0, max_len, field_name, true)
}

/// An ASCII hexadecimal digit, either case.
pub open spec fn is_hex_digit_byte(b: u8) -> bool {
    (48 <= b && b <= 57) || (97 <= b && b <= 102) || (65 <= b && b <= 70)
}

/// Thirty-six bytes: hexadecimal digits with hyphens at 8, 13, 18 and 23.
pub open spec fn is_hyphenated_uuid(s: Seq<u8>) -> bool {
    &&& s.len() == 36
    &&& forall|i: int|
        0 <= i < 36 ==> (if i == 8 || i == 13 || i == 18 || i == 23 {
            #[trigger] s[i] == 45
        } else {
            is_hex_digit_byte(s[i])
        })
}

/// The nine bytes "urn:uuid:", ignoring ASCII case.
pub open spec fn is_urn_prefix(s: Seq<u8>) -> bool {
    s.len() == 9 && ascii_lower_bytes(s) == seq![117u8, 114, 110, 58, 117, 117, 105, 100, 58]
}

/// The text forms of a UUID that `Uuid::parse_str` accepts: 32 hex digits;
/// the hyphenated form; the hyphenated form in braces; or the hyphenated
/// form after "urn:uuid:" in any case.
pub open spec fn uuid_text_ok(s: Seq<u8>) -> bool {
    ||| (s.len() == 32 && forall|i: int| 0 <= i < 32 ==> is_hex_digit_byte(#[trigger] s[i]))
    ||| is_hyphenated_uuid(s)
    ||| (s.len() == 38 && s[0] == 123 && s[37] == 125 && is_hyphenated_uuid(s.subrange(1, 37)))
    ||| (s.len() == 45 && is_urn_prefix(s.subrange(0, 9)) && is_hyphenated_uuid(s.subrange(9, 45)))
}

/// The value of an ASCII hexadecimal digit.
pub open spec fn hex_value(b: u8) -> int {
    if 48 <= b && b <= 57 {
        b - 48
    } else if 97 <= b && b <= 102 {
        b - 87
    } else {
        b - 55
    }
}

/// The 32 digits of a hyphenated UUID, hyphens left out.
pub open spec fn hyphens_removed(s: Seq<u8>) -> Seq<u8> {
    s.subrange(0, 8) + s.subrange(9, 13) + s.subrange(14, 18) + s.subrange(19, 23) + s.subrange(24, 36)
}

/// The 32 hexadecimal digits of an accepted UUID text, in order.
pub open spec fn uuid_hex_digits(s: Seq<u8>) -> Seq<u8> {
    if s.len() == 32 {
        s
    } else if s.len() == 36 {
        hyphens_removed(s)
    } else if s.len() == 38 {
        hyphens_removed(s.subrange(1, 37))
    } else {
        hyphens_removed(s.subrange(9, 45))
    }
}

/// The sixteen bytes an accepted UUID text stands for: each pair of
/// digits, high digit first, is one byte.
pub open spec fn uuid_text_bytes(s: Seq<u8>) -> Seq<u8> {
    let d = uuid_hex_digits(s);
    Seq::new(16, |i: int| (hex_value(d[2 * i]) * 16 + hex_value(d[2 * i + 1])) as u8)
}

/// Parses a UUID (`Uuid::parse_str`).
///
/// Claims that parsing succeeds exactly on the accepted text forms, and
/// that the UUID parsed is the one whose bytes the 32 digits spell
/// (`try_parse` decodes them and `Uuid::from_bytes` builds the value).
#[verifier::external_body]
fn parse_uuid(text: &str) -> (r: Option<uuid::Uuid>)
    ensures
        r is Some <==> uuid_text_ok(text.spec_bytes()),
        r matches Some(u) ==> u == uuid_with_bytes(uuid_text_bytes(text.spec_bytes())),
{
    uuid::Uuid::parse_str(text).ok()
}

/// Parses a UUID field, or reports that it is not a valid UUID.
pub fn validate_uuid(id: &str, field_name: &str) -> (r: Result<uuid::Uuid, KestrelError>)
    ensures
        r matches Ok(u) ==> u == uuid_with_bytes(uuid_text_bytes(id.spec_bytes())),
        checked(
            r,
            if uuid_text_ok(id.spec_bytes()) {
                None
            } else {
                Some(field_name@ + " must be a valid UUID"@)
            },
        ),
{
    match parse_uuid(id) {
        Some(u) => Ok(u),
        None => {
            let mut m = field_name.to_string();
            m.append(" must be a valid UUID");
            Err(KestrelError::Validation(m))
        },
    }
}

} // verus!
