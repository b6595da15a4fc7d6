//! Identifiers. Every entity is keyed by a UUID, held here as its 128-bit
//! value; the `uuid` crate parses, prints and generates them.
use vstd::prelude::*;
use vstd::arithmetic::power::pow;

verus! {

/// The hexadecimal digit character for `d` in lower case.
pub open spec fn hex_char(d: int) -> char
    recommends
        0 <= d < 16,
{
    if d < 10 {
        (d + 48) as char
    } else {
        (d + 87) as char
    }
}

/// The `k`-th hexadecimal digit of `v`, counted from the most significant.
pub open spec fn nibble(v: u128, k: int) -> int {
    (v as int / pow(16, (31 - k) as nat)) % 16
}

/// The canonical text of a UUID: 32 lower-case hexadecimal digits in
/// groups of 8, 4, 4, 4 and 12, separated by hyphens.
pub open spec fn hyphenated(v: u128) -> Seq<char> {
    Seq::new(
        36,
        |i: int|
            if i == 8 || i == 13 || i == 18 || i == 23 {
                '-'
            } else if i < 8 {
                hex_char(nibble(v, i))
            } else if i < 13 {
                hex_char(nibble(v, i - 1))
            } else if i < 18 {
                hex_char(nibble(v, i - 2))
            } else if i < 23 {
                hex_char(nibble(v, i - 3))
            } else {
                hex_char(nibble(v, i - 4))
            },
    )
}

/// What `uuid::Uuid::parse_str` makes of a text: the UUID's value, or the
/// text of the parse error.
pub uninterp spec fn uuid_parse(text: Seq<char>) -> Result<u128, Seq<char>>;

/// Whether `uuid` parses `text` to the UUID `v`.
pub open spec fn parses_to(text: Seq<char>, v: u128) -> bool {
    uuid_parse(text) == Ok::<u128, Seq<char>>(v)
}

/// Calls `uuid::Uuid::parse_str`. Its result is named by `uuid_parse`; the
/// error is handed on as the text its `Display` writes.
#[verifier::external_body]
pub(crate) fn parse_uuid(text: &str) -> (res: Result<u128, String>)
    ensures
        match res {
            Ok(v) => parses_to(text@, v),
            Err(m) => uuid_parse(text@) == Err::<u128, Seq<char>>(m@),
        },
{
    match uuid::Uuid::parse_str(text) {
        Ok(u) => Ok(u.as_u128()),
        Err(e) => Err(e.to_string()),
    }
}

/// Calls `uuid::Uuid::from_u128` and the `Display` of `Uuid`, which writes
/// the hyphenated lower-case form; `parse_str` reads that form back (its
/// documentation says it accepts every format the crate writes).
#[verifier::external_body]
pub(crate) fn uuid_to_string(v: u128) -> (res: String)
    ensures
        res@ == hyphenated(v),
        parses_to(res@, v),
{
    uuid::Uuid::from_u128(v).to_string()
}

/// Mask of the version and variant bits of a UUID's value.
pub const UUID_V4_MASK: u128 = 0x0000_0000_0000_f000_c000_0000_0000_0000;

/// The version and variant bits that every random (version 4) UUID carries.
pub const UUID_V4_BITS: u128 = 0x0000_0000_0000_4000_8000_0000_0000_0000;

/// Calls `uuid::Uuid::new_v4`. Its value is random; its source sets the
/// version nibble to 4 and the variant bits to `10`, which is all that is
/// stated here.
#[verifier::external_body]
pub(crate) fn new_uuid() -> (res: u128)
    ensures
        res & UUID_V4_MASK == UUID_V4_BITS,
{
    uuid::Uuid::new_v4().as_u128()
}

/// Parses a UUID from its text; `None` where `uuid` refuses the text.
pub fn uuid_from_text(text: &str) -> (res: Option<u128>)
    ensures
        match res {
            Some(v) => parses_to(text@, v),
            None => uuid_parse(text@) is Err,
        },
{
    match parse_uuid(text) {
        Ok(v) => Some(v),
        Err(_) => None,
    }
}

/// The canonical hyphenated text of a UUID.
pub fn uuid_text(v: u128) -> (res: String)
    ensures
        res@ == hyphenated(v),
        parses_to(res@, v),
{
    uuid_to_string(v)
}

} // verus!
