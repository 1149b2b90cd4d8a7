//! Fresh identifiers.

use vstd::prelude::*;

verus! {

/// A hexadecimal digit in lower case.
pub open spec fn lower_hex(c: char) -> bool {
    '0' <= c <= '9' || 'a' <= c <= 'f'
}

/// The text of a random UUID: 32 hexadecimal digits in groups of 8, 4, 4, 4 and 12,
/// parted by hyphens, the third group beginning with the version 4 and the fourth
/// with the variant.
pub open spec fn is_random_uuid(s: Seq<char>) -> bool {
    &&& s.len() == 36
    &&& forall|i: int|
        0 <= i < 36 ==> if i == 8 || i == 13 || i == 18 || i == 23 {
            s[i] == '-'
        } else {
            lower_hex(#[trigger] s[i])
        }
    &&& s[14] == '4'
    &&& s[19] == '8' || s[19] == '9' || s[19] == 'a' || s[19] == 'b'
}

/// An identifier that was drawn at random.
pub closed spec fn drawn(id: Seq<char>) -> bool {
    exists|s: String| s@ == id && #[trigger] call_ensures(new_id, (), s)
}

/// `uuid::Uuid::new_v4`, written out by the type's `Display`: a UUID whose bits are
/// random but for the version and the variant, in hyphenated lower-case form. Which
/// one comes is left to chance. There is none where the system has no random numbers to
/// give: the call then panics, whatever it is for.
#[verifier::external_body]
pub(crate) fn new_id() -> (r: String)
    ensures
        is_random_uuid(r@),
{
    uuid::Uuid::new_v4().to_string()
}

/// A fresh identifier, drawn at random.
pub(crate) fn draw() -> (r: String)
    ensures
        is_random_uuid(r@),
        drawn(r@),
{
    let r: String = new_id();
    assert(call_ensures(new_id, (), r));
    r
}

} // verus!
