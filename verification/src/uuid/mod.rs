//! The node's identifier.
//!
//! Each firmware build is meant to carry its own identifier, written into the
//! build's sources when the firmware is produced. This crate has no build
//! step that could write it, so [`UUID`] holds the nil UUID as a stand-in:
//! replace it with the build's identifier when the firmware is made.
use vstd::prelude::*;

verus! {

/// The identifier of this node, in canonical textual UUID form. The nil UUID
/// here stands in for the identifier of the build.
pub const UUID: &'static str = "00000000-0000-0000-0000-000000000000";

/// Whether `c` is a hexadecimal digit.
pub open spec fn is_hex_digit(c: char) -> bool {
    ('0' <= c <= '9') || ('a' <= c <= 'f') || ('A' <= c <= 'F')
}

/// Whether `i` is the position of one of the four hyphens of a canonical UUID.
pub open spec fn is_uuid_hyphen_position(i: int) -> bool {
    i == 8 || i == 13 || i == 18 || i == 23
}

/// Whether `s` is a UUID in canonical textual form: 32 hexadecimal digits in
/// groups of 8, 4, 4, 4 and 12, separated by hyphens.
pub open spec fn is_canonical_uuid(s: Seq<char>) -> bool {
    &&& s.len() == 36
    &&& forall|i: int|
        0 <= i < 36 ==> if is_uuid_hyphen_position(i) {
            s[i] == '-'
        } else {
            is_hex_digit(#[trigger] s[i])
        }
}

/// The identifier of this node.
pub fn uuid() -> (res: &'static str)
    ensures
        res@ == UUID@,
        is_canonical_uuid(res@),
{
    proof {
        reveal_strlit("00000000-0000-0000-0000-000000000000");
    }
    UUID
}

} // verus!
