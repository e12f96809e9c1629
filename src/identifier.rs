use crate::error::{DBError, DBErrorView};
use sqlx::types::Uuid;
use vstd::prelude::*;
use vstd::string::StringExecFns;

verus! {

/// An ASCII hexadecimal digit, in either case.
pub open spec fn is_hex_digit(c: char) -> bool {
    ('0' <= c && c <= '9') || ('a' <= c && c <= 'f') || ('A' <= c && c <= 'F')
}

/// Thirty-two hexadecimal digits and nothing else.
pub open spec fn is_simple_form(s: Seq<char>) -> bool {
    s.len() == 32 && forall|i: int| 0 <= i < 32 ==> is_hex_digit(#[trigger] s[i])
}

/// The positions of the hyphens in the hyphenated form.
pub open spec fn is_hyphen_position(i: int) -> bool {
    i == 8 || i == 13 || i == 18 || i == 23
}

/// The 8-4-4-4-12 hyphenated form, such as
/// `936da01f-9abd-4d9d-80c7-02af85c822a8`.
pub open spec fn is_hyphenated_form(s: Seq<char>) -> bool {
    &&& s.len() == 36
    &&& forall|i: int|
        0 <= i < 36 ==> if is_hyphen_position(i) {
            #[trigger] s[i] == '-'
        } else {
            is_hex_digit(s[i])
        }
}

/// The prefix `urn:uuid:`, its letters in either case.
pub open spec fn is_urn_prefix(s: Seq<char>) -> bool {
    &&& s.len() == 9
    &&& (s[0] == 'u' || s[0] == 'U')
    &&& (s[1] == 'r' || s[1] == 'R')
    &&& (s[2] == 'n' || s[2] == 'N')
    &&& s[3] == ':'
    &&& (s[4] == 'u' || s[4] == 'U')
    &&& (s[5] == 'u' || s[5] == 'U')
    &&& (s[6] == 'i' || s[6] == 'I')
    &&& (s[7] == 'd' || s[7] == 'D')
    &&& s[8] == ':'
}

/// A well-formed identifier: the simple form, the hyphenated form, the
/// hyphenated form in braces, or the hyphenated form after `urn:uuid:`.
pub open spec fn is_well_formed_identifier(s: Seq<char>) -> bool {
    ||| is_simple_form(s)
    ||| is_hyphenated_form(s)
    ||| (s.len() == 38 && s[0] == '{' && s[37] == '}' && is_hyphenated_form(s.subrange(1, 37)))
    ||| (s.len() == 45 && is_urn_prefix(s.subrange(0, 9)) && is_hyphenated_form(
        s.subrange(9, 45),
    ))
}

/// The value of one hexadecimal digit.
pub open spec fn hex_digit_value(c: char) -> int {
    if '0' <= c && c <= '9' {
        c as int - '0' as int
    } else if 'a' <= c && c <= 'f' {
        c as int - 'a' as int + 10
    } else {
        c as int - 'A' as int + 10
    }
}

/// The number that a sequence of hexadecimal digits writes, most
/// significant digit first.
pub open spec fn hex_number(d: Seq<char>) -> int
    decreases d.len(),
{
    if d.len() == 0 {
        0
    } else {
        hex_number(d.drop_last()) * 16 + hex_digit_value(d.last())
    }
}

/// The 32 digits of an identifier in the hyphenated form, hyphens removed.
pub open spec fn hyphenated_digits(h: Seq<char>) -> Seq<char> {
    h.subrange(0, 8) + h.subrange(9, 13) + h.subrange(14, 18) + h.subrange(19, 23) + h.subrange(
        24,
        36,
    )
}

/// The 32 digits of a well-formed identifier, in order.
pub open spec fn identifier_digits(s: Seq<char>) -> Seq<char> {
    if s.len() == 32 {
        s
    } else if s.len() == 36 {
        hyphenated_digits(s)
    } else if s.len() == 38 {
        hyphenated_digits(s.subrange(1, 37))
    } else {
        hyphenated_digits(s.subrange(9, 45))
    }
}

/// The 128-bit value that a well-formed identifier denotes: its 32 digits
/// read as one hexadecimal number.
pub open spec fn identifier_value(s: Seq<char>) -> u128 {
    hex_number(identifier_digits(s)) as u128
}

/// Relies on `Uuid::parse_str` of the uuid crate (re-exported by sqlx): it
/// succeeds on exactly the simple, hyphenated, braced and URN forms; and on
/// `Uuid::as_u128`: the 16 bytes the 32 digits make, read big-endian.
#[verifier::external_body]
fn parse_uuid(s: &str) -> (r: Option<u128>)
    ensures
        r is Some <==> is_well_formed_identifier(s@),
        r matches Some(v) ==> v == identifier_value(s@),
{
    Uuid::parse_str(s).ok().map(|u| u.as_u128())
}

/// The error for an identifier that is not well formed: `prefix` followed by
/// the identifier as given.
pub open spec fn malformed_identifier(prefix: Seq<char>, s: Seq<char>) -> DBErrorView {
    DBErrorView::InvalidUUID(prefix + s)
}

/// Parses `s` as an identifier, before any store is touched. A malformed
/// identifier gives `InvalidUUID` with a message that names it.
pub fn parse_identifier(s: &String, prefix: &str) -> (r: Result<u128, DBError>)
    ensures
        r is Ok <==> is_well_formed_identifier(s@),
        r matches Ok(v) ==> v == identifier_value(s@),
        r matches Err(e) ==> e@ == malformed_identifier(prefix@, s@),
{
    match parse_uuid(s.as_str()) {
        Some(u) => Ok(u),
        None => {
            let mut message = String::from_str(prefix);
            message.append(s.as_str());
            Err(DBError::InvalidUUID(message))
        },
    }
}

} // verus!
