//! Fresh correlation identifiers.

use vstd::prelude::*;

verus! {

/// Whether `c` is one of `0`..`9`, `a`..`f`.
pub open spec fn is_lower_hex(c: char) -> bool {
    ('0' <= c && c <= '9') || ('a' <= c && c <= 'f')
}

/// Whether position `i` of a hyphenated identifier holds a hyphen.
pub open spec fn is_hyphen_position(i: int) -> bool {
    i == 8 || i == 13 || i == 18 || i == 23
}

/// The shape of a freshly drawn correlation identifier: the hyphenated
/// lower-case text of a random (version 4) UUID. It has 36 characters in
/// groups of 8, 4, 4, 4 and 12 hexadecimal digits separated by hyphens; the
/// third group starts with the version digit `4`, and the fourth with one of
/// the variant digits `8`, `9`, `a`, `b`.
pub open spec fn is_fresh_extra(s: Seq<char>) -> bool {
    &&& s.len() == 36
    &&& forall|i: int|
        0 <= i < 36 ==> if is_hyphen_position(i) {
            #[trigger] s[i] == '-'
        } else {
            is_lower_hex(s[i])
        }
    &&& s[14] == '4'
    &&& (s[19] == '8' || s[19] == '9' || s[19] == 'a' || s[19] == 'b')
}

/// Draws a new random correlation identifier.
///
/// Calls `uuid::Uuid::new_v4` and renders the result with its `Display`
/// impl. Trusted, from that crate's source: `new_v4` fixes the version and
/// variant bits of the random value, and `Display` writes the hyphenated
/// lower-case form. Which digits come out is left open; two calls may
/// differ. The call fails only if the operating system cannot supply random
/// bytes.
#[verifier::external_body]
pub(crate) fn fresh_extra() -> (s: String)
    ensures
        is_fresh_extra(s@),
{
    uuid::Uuid::new_v4().to_string()
}

} // verus!
