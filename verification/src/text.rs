//! Fixed-capacity text fields of the foreign records.  A string is
//! encoded, truncated to the field's capacity with room for a terminator,
//! zero-terminated and zero-padded — never overflowed.

use vstd::prelude::*;
use vstd::string::StringSliceAdditionalSpecFns;

verus! {

/// The UTF-16 code units of a string.
pub uninterp spec fn utf16_units_of(s: Seq<char>) -> Seq<u16>;

/// Relies on widestring::U16String::from_str, which encodes the string as
/// UTF-16, and U16String::into_vec, which hands the units out unchanged:
/// the result is a function of the characters alone, and an empty string
/// encodes to no units.
#[verifier::external_body]
fn encode_utf16_units(s: &str) -> (r: Vec<u16>)
    ensures
        r@ == utf16_units_of(s@),
        s@.len() == 0 ==> r@.len() == 0,
{
    widestring::U16String::from_str(s).into_vec()
}

/// What a fixed-capacity field must hold for the units of `src`: exactly
/// `cap` units, the truncated content first, then a zero terminator and
/// zero padding.
pub open spec fn fixed_field_spec<T>(src: Seq<T>, cap: nat, zero: T) -> Seq<T> {
    Seq::new(
        cap,
        |i: int|
            if i < src.len() && i + 1 < cap {
                src[i]
            } else {
                zero
            },
    )
}

/// Lays the units out in a field of exactly `cap` units: content
/// truncated to leave room for the terminator, then zeros.
pub fn fixed_u16_field(units: &Vec<u16>, cap: usize) -> (r: Vec<u16>)
    requires
        cap >= 1,
    ensures
        r@ == fixed_field_spec(units@, cap as nat, 0u16),
        r@.len() == cap,
{
    let mut out: Vec<u16> = Vec::new();
    let mut i: usize = 0;
    while i < cap
        invariant
            i <= cap,
            out@ == fixed_field_spec(units@, cap as nat, 0u16).take(i as int),
        decreases cap - i,
    {
        if i < units.len() && i + 1 < cap {
            out.push(units[i]);
        } else {
            out.push(0u16);
        }
        i = i + 1;
        proof {
            assert(out@ =~= fixed_field_spec(units@, cap as nat, 0u16).take(i as int));
        }
    }
    proof {
        assert(fixed_field_spec(units@, cap as nat, 0u16).take(cap as int) =~= fixed_field_spec(
            units@,
            cap as nat,
            0u16,
        ));
    }
    out
}

/// Lays the bytes out in a field of exactly `cap` bytes, the same way.
pub fn fixed_u8_field(bytes: &[u8], cap: usize) -> (r: Vec<u8>)
    requires
        cap >= 1,
    ensures
        r@ == fixed_field_spec(bytes@, cap as nat, 0u8),
        r@.len() == cap,
{
    let mut out: Vec<u8> = Vec::new();
    let mut i: usize = 0;
    while i < cap
        invariant
            i <= cap,
            out@ == fixed_field_spec(bytes@, cap as nat, 0u8).take(i as int),
        decreases cap - i,
    {
        if i < bytes.len() && i + 1 < cap {
            out.push(bytes[i]);
        } else {
            out.push(0u8);
        }
        i = i + 1;
        proof {
            assert(out@ =~= fixed_field_spec(bytes@, cap as nat, 0u8).take(i as int));
        }
    }
    proof {
        assert(fixed_field_spec(bytes@, cap as nat, 0u8).take(cap as int) =~= fixed_field_spec(
            bytes@,
            cap as nat,
            0u8,
        ));
    }
    out
}

/// A string as a fixed-capacity wide-character field: encoded to UTF-16,
/// truncated to fit, zero-terminated and zero-padded.
pub fn wide_field(s: &str, cap: usize) -> (r: Vec<u16>)
    requires
        cap >= 1,
    ensures
        r@ == fixed_field_spec(utf16_units_of(s@), cap as nat, 0u16),
        r@.len() == cap,
        s@.len() == 0 ==> utf16_units_of(s@).len() == 0,
{
    let units = encode_utf16_units(s);
    fixed_u16_field(&units, cap)
}

/// A string as a fixed-capacity byte field: its UTF-8 bytes, truncated to
/// fit, zero-terminated and zero-padded.
pub fn narrow_field(s: &str, cap: usize) -> (r: Vec<u8>)
    requires
        cap >= 1,
    ensures
        r@ == fixed_field_spec(s.spec_bytes(), cap as nat, 0u8),
        r@.len() == cap,
{
    fixed_u8_field(s.as_bytes(), cap)
}

} // verus!
