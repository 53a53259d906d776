//! Identities. Each is one UUID, held as its 128-bit value, behind a type of
//! its own so that two kinds of identity are never confused.

use vstd::prelude::*;

verus! {

#[derive(Clone, Copy, Debug, PartialEq, Eq, Hash, Structural)]
pub struct EndpointId(pub u128);

#[derive(Clone, Copy, Debug, PartialEq, Eq, Hash, Structural)]
pub struct JobId(pub u128);

#[derive(Clone, Copy, Debug, PartialEq, Eq, Hash, Structural)]
pub struct JobStepId(pub u128);

#[derive(Clone, Copy, Debug, PartialEq, Eq, Hash, Structural)]
pub struct AttemptId(pub u128);

#[derive(Clone, Copy, Debug, PartialEq, Eq, Hash, Structural)]
pub struct ActionId(pub u128);

#[derive(Clone, Copy, Debug, PartialEq, Eq, Hash, Structural)]
pub struct TransferId(pub u128);

#[derive(Clone, Copy, Debug, PartialEq, Eq, Hash, Structural)]
pub struct ArtifactId(pub u128);

#[derive(Clone, Copy, Debug, PartialEq, Eq, Hash, Structural)]
pub struct InventoryRevisionId(pub u128);

/// A claim on technical capacity, held for the lifetime of one attempt.
#[derive(Clone, Copy, Debug, PartialEq, Eq, Hash, Structural)]
pub struct ReservationId(pub u64);

/// An identity as it travels on the wire. Wire identities are random
/// (version 4) UUIDs only; see [`is_uuid_v4`].
#[derive(Clone, Copy, Debug, PartialEq, Eq, Hash, Structural)]
pub struct ProtocolId(pub u128);

/// The version nibble is 4 and the two variant bits are `10`.
pub open spec fn is_uuid_v4(value: u128) -> bool {
    (value >> 76u128) & 0xf == 4 && (value >> 62u128) & 0x3 == 2
}

/// Tells a random (version 4) UUID from any other value.
pub fn uuid_is_v4(value: u128) -> (r: bool)
    ensures
        r == is_uuid_v4(value),
{
    (value >> 76u128) & 0xf == 4 && (value >> 62u128) & 0x3 == 2
}

/// The lowercase hexadecimal digit for `0..=15`.
pub open spec fn hex_digit(nibble: int) -> char {
    if nibble < 10 {
        (48 + nibble) as char
    } else {
        (87 + nibble) as char
    }
}

/// Whether position `i` of a hyphenated UUID is one of its four hyphens.
pub open spec fn is_hyphen_position(i: int) -> bool {
    i == 8 || i == 13 || i == 18 || i == 23
}

/// How many hyphens stand before position `i` of a hyphenated UUID.
pub open spec fn hyphens_before(i: int) -> int {
    (if i > 8 { 1int } else { 0 }) + (if i > 13 { 1int } else { 0 }) + (if i > 18 { 1int } else {
        0
    }) + (if i > 23 { 1int } else { 0 })
}

/// The canonical text of a UUID: 32 lowercase hexadecimal digits, most
/// significant first, in groups of 8-4-4-4-12.
pub open spec fn hyphenated_text(value: u128) -> Seq<char> {
    Seq::new(
        36,
        |i: int|
            if is_hyphen_position(i) {
                '-'
            } else {
                hex_digit(((value >> ((124 - 4 * (i - hyphens_before(i))) as u128)) & 0xf) as int)
            },
    )
}

/// The UUID that `uuid::Uuid::parse_str` reads out of `text`, if it accepts it.
pub uninterp spec fn parsed_uuid(text: Seq<char>) -> Option<u128>;

/// `uuid::Uuid::parse_str`. It accepts several spellings (simple, hyphenated,
/// braced, URN; either case); which ones is left to the name. Claimed beside
/// the name: the canonical spelling of a UUID is read back as that UUID.
#[verifier::external_body]
pub(crate) fn parse_uuid(text: &str) -> (r: Option<u128>)
    ensures
        r == parsed_uuid(text@),
        forall|value: u128| text@ == #[trigger] hyphenated_text(value) ==> r == Some(value),
{
    uuid::Uuid::parse_str(text).ok().map(|parsed| parsed.as_u128())
}

/// `uuid::Uuid::hyphenated` and its `Display`: the canonical lowercase text.
#[verifier::external_body]
pub(crate) fn hyphenated(value: u128) -> (r: String)
    ensures
        r@ == hyphenated_text(value),
{
    uuid::Uuid::from_u128(value).hyphenated().to_string()
}

/// `uuid::Uuid::new_v4`. The value is random; only its version and variant
/// bits are claimed.
#[verifier::external_body]
pub(crate) fn fresh_uuid() -> (r: u128)
    ensures
        is_uuid_v4(r),
{
    uuid::Uuid::new_v4().as_u128()
}

/// Reads `text` as a UUID, accepting nothing but the canonical spelling.
pub fn parse_canonical_uuid(text: &str) -> (r: Option<u128>)
    ensures
        r matches Some(value) ==> text@ == hyphenated_text(value),
        r is None ==> forall|value: u128| text@ != #[trigger] hyphenated_text(value),
        forall|value: u128| text@ == #[trigger] hyphenated_text(value) ==> r == Some(value),
{
    match parse_uuid(text) {
        None => None,
        Some(value) => {
            let canonical = hyphenated(value);
            if crate::text::same_text(canonical.as_str(), text) {
                Some(value)
            } else {
                None
            }
        },
    }
}

proof fn same_digit_same_nibble(first: u128, second: u128, position: int, shift: u128)
    requires
        0 <= position < 36,
        !is_hyphen_position(position),
        shift == 124 - 4 * (position - hyphens_before(position)),
        hyphenated_text(first) == hyphenated_text(second),
    ensures
        (first >> shift) & 0xf == (second >> shift) & 0xf,
{
    let left = (first >> shift) & 0xf;
    let right = (second >> shift) & 0xf;
    assert(left <= 15) by (bit_vector)
        requires
            left == (first >> shift) & 0xf,
    ;
    assert(right <= 15) by (bit_vector)
        requires
            right == (second >> shift) & 0xf,
    ;
    assert(hyphenated_text(first)[position] == hex_digit(left as int));
    assert(hyphenated_text(second)[position] == hex_digit(right as int));
    assert(hex_digit(left as int) as u32 == (if left < 10 { 48 + left } else { 87 + left }));
    assert(hex_digit(right as int) as u32 == (if right < 10 { 48 + right } else { 87 + right }));
}

/// A UUID is identified by its canonical text.
pub proof fn canonical_text_identifies(first: u128, second: u128)
    requires
        hyphenated_text(first) == hyphenated_text(second),
    ensures
        first == second,
{
    same_digit_same_nibble(first, second, 0, 124);
    same_digit_same_nibble(first, second, 1, 120);
    same_digit_same_nibble(first, second, 2, 116);
    same_digit_same_nibble(first, second, 3, 112);
    same_digit_same_nibble(first, second, 4, 108);
    same_digit_same_nibble(first, second, 5, 104);
    same_digit_same_nibble(first, second, 6, 100);
    same_digit_same_nibble(first, second, 7, 96);
    same_digit_same_nibble(first, second, 9, 92);
    same_digit_same_nibble(first, second, 10, 88);
    same_digit_same_nibble(first, second, 11, 84);
    same_digit_same_nibble(first, second, 12, 80);
    same_digit_same_nibble(first, second, 14, 76);
    same_digit_same_nibble(first, second, 15, 72);
    same_digit_same_nibble(first, second, 16, 68);
    same_digit_same_nibble(first, second, 17, 64);
    same_digit_same_nibble(first, second, 19, 60);
    same_digit_same_nibble(first, second, 20, 56);
    same_digit_same_nibble(first, second, 21, 52);
    same_digit_same_nibble(first, second, 22, 48);
    same_digit_same_nibble(first, second, 24, 44);
    same_digit_same_nibble(first, second, 25, 40);
    same_digit_same_nibble(first, second, 26, 36);
    same_digit_same_nibble(first, second, 27, 32);
    same_digit_same_nibble(first, second, 28, 28);
    same_digit_same_nibble(first, second, 29, 24);
    same_digit_same_nibble(first, second, 30, 20);
    same_digit_same_nibble(first, second, 31, 16);
    same_digit_same_nibble(first, second, 32, 12);
    same_digit_same_nibble(first, second, 33, 8);
    same_digit_same_nibble(first, second, 34, 4);
    same_digit_same_nibble(first, second, 35, 0);
    assert(first == second) by (bit_vector)
        requires
            (first >> 124u128) & 0xf == (second >> 124u128) & 0xf,
            (first >> 120u128) & 0xf == (second >> 120u128) & 0xf,
            (first >> 116u128) & 0xf == (second >> 116u128) & 0xf,
            (first >> 112u128) & 0xf == (second >> 112u128) & 0xf,
            (first >> 108u128) & 0xf == (second >> 108u128) & 0xf,
            (first >> 104u128) & 0xf == (second >> 104u128) & 0xf,
            (first >> 100u128) & 0xf == (second >> 100u128) & 0xf,
            (first >> 96u128) & 0xf == (second >> 96u128) & 0xf,
            (first >> 92u128) & 0xf == (second >> 92u128) & 0xf,
            (first >> 88u128) & 0xf == (second >> 88u128) & 0xf,
            (first >> 84u128) & 0xf == (second >> 84u128) & 0xf,
            (first >> 80u128) & 0xf == (second >> 80u128) & 0xf,
            (first >> 76u128) & 0xf == (second >> 76u128) & 0xf,
            (first >> 72u128) & 0xf == (second >> 72u128) & 0xf,
            (first >> 68u128) & 0xf == (second >> 68u128) & 0xf,
            (first >> 64u128) & 0xf == (second >> 64u128) & 0xf,
            (first >> 60u128) & 0xf == (second >> 60u128) & 0xf,
            (first >> 56u128) & 0xf == (second >> 56u128) & 0xf,
            (first >> 52u128) & 0xf == (second >> 52u128) & 0xf,
            (first >> 48u128) & 0xf == (second >> 48u128) & 0xf,
            (first >> 44u128) & 0xf == (second >> 44u128) & 0xf,
            (first >> 40u128) & 0xf == (second >> 40u128) & 0xf,
            (first >> 36u128) & 0xf == (second >> 36u128) & 0xf,
            (first >> 32u128) & 0xf == (second >> 32u128) & 0xf,
            (first >> 28u128) & 0xf == (second >> 28u128) & 0xf,
            (first >> 24u128) & 0xf == (second >> 24u128) & 0xf,
            (first >> 20u128) & 0xf == (second >> 20u128) & 0xf,
            (first >> 16u128) & 0xf == (second >> 16u128) & 0xf,
            (first >> 12u128) & 0xf == (second >> 12u128) & 0xf,
            (first >> 8u128) & 0xf == (second >> 8u128) & 0xf,
            (first >> 4u128) & 0xf == (second >> 4u128) & 0xf,
            (first >> 0u128) & 0xf == (second >> 0u128) & 0xf,
    ;
}

/// A version 4 UUID is known by its canonical text: the fifteenth character is a four,
/// and the twentieth one of `8`, `9`, `a` and `b`.
pub proof fn version_four_shows_in_the_text(value: u128, r: bool)
    requires
        call_ensures(uuid_is_v4, (value,), r),
    ensures
        r <==> hyphenated_text(value)[14] == '4' && (hyphenated_text(value)[19] == '8'
            || hyphenated_text(value)[19] == '9' || hyphenated_text(value)[19] == 'a'
            || hyphenated_text(value)[19] == 'b'),
{
    let version = (value >> 76u128) & 0xf;
    let variant = (value >> 60u128) & 0xf;
    assert(version <= 15) by (bit_vector)
        requires
            version == (value >> 76u128) & 0xf,
    ;
    assert(variant <= 15 && ((value >> 62u128) & 0x3 == 2 <==> 8 <= variant <= 11)) by (bit_vector)
        requires
            variant == (value >> 60u128) & 0xf,
    ;
    assert(hyphenated_text(value)[14] == hex_digit(version as int));
    assert(hyphenated_text(value)[19] == hex_digit(variant as int));
    assert(hex_digit(version as int) as u32 == (if version < 10 { 48 + version } else { 87
        + version }));
    assert(hex_digit(variant as int) as u32 == (if variant < 10 { 48 + variant } else { 87
        + variant }));
}

} // verus!
