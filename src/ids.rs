use vstd::prelude::*;

verus! {

/// uuid's parse error, carried opaquely until it is mapped to `InvalidInput`.
#[verifier::external_type_specification]
#[verifier::external_body]
pub struct ExUuidError(uuid::Error);

/// The 128-bit value of a textual UUID, when the text is one.
pub uninterp spec fn uuid_value(s: Seq<char>) -> Option<u128>;

/// The lower-case hexadecimal digit for `d`, which is below sixteen.
pub open spec fn hex_digit(d: nat) -> char {
    if d < 10 {
        (('0' as u8) + d) as char
    } else {
        (('a' as u8) + (d - 10)) as char
    }
}

/// The last `n` hexadecimal digits of `v`, leading zeros kept.
pub open spec fn hex_text(v: nat, n: nat) -> Seq<char>
    decreases n,
{
    if n == 0 {
        Seq::empty()
    } else {
        hex_text(v / 16, (n - 1) as nat).push(hex_digit(v % 16))
    }
}

/// The hyphenated lower-case text of a 128-bit UUID value: 32 hexadecimal
/// digits, most significant first, grouped 8-4-4-4-12.
pub open spec fn uuid_text(v: u128) -> Seq<char> {
    let h = hex_text(v as nat, 32);
    h.subrange(0, 8) + "-"@ + h.subrange(8, 12) + "-"@ + h.subrange(12, 16) + "-"@ + h.subrange(
        16,
        20,
    ) + "-"@ + h.subrange(20, 32)
}

/// Relies on uuid::Uuid::parse_str: reads a UUID in any of the textual forms
/// that the uuid crate accepts.
#[verifier::external_body]
pub(crate) fn parse_uuid(s: &str) -> (r: Result<u128, uuid::Error>)
    ensures
        r matches Ok(v) ==> uuid_value(s@) == Some(v),
        r is Err ==> uuid_value(s@) is None,
{
    uuid::Uuid::parse_str(s).map(|u| u.as_u128())
}

/// Relies on uuid::Uuid::from_u128 and its Display: the hyphenated lower-case
/// form, which parse_str reads back to the same value.
#[verifier::external_body]
pub(crate) fn format_uuid(v: u128) -> (r: String)
    ensures
        r@ == uuid_text(v),
        uuid_value(r@) == Some(v),
{
    uuid::Uuid::from_u128(v).to_string()
}

} // verus!
