//! The identifier shape that extraction filters on: 8-4-4-4-12 groups of
//! lowercase hex digits separated by dashes, stated over the UTF-8 bytes of
//! the candidate string.

use vstd::prelude::*;
use vstd::string::StringSliceAdditionalSpecFns;

verus! {

/// A lowercase hexadecimal digit: '0'..'9' or 'a'..'f'.
pub open spec fn is_hex_lower_byte(b: u8) -> bool {
    (0x30 <= b <= 0x39) || (0x61 <= b <= 0x66)
}

/// True at the positions where the identifier shape puts its dashes.
pub open spec fn is_dash_position(i: int) -> bool {
    i == 8 || i == 13 || i == 18 || i == 23
}

/// The fixed identifier shape: 36 bytes, dashes at positions 8, 13, 18 and
/// 23, lowercase hex digits everywhere else.
pub open spec fn is_uuid_shaped(s: Seq<u8>) -> bool {
    &&& s.len() == 36
    &&& forall|i: int|
        0 <= i < 36 ==> (if is_dash_position(i) {
            s[i] == 0x2d
        } else {
            is_hex_lower_byte(#[trigger] s[i])
        })
}

/// Decide whether a candidate identifier has the required shape.
pub fn uuid_shaped(id: &str) -> (r: bool)
    ensures
        r == is_uuid_shaped(id.spec_bytes()),
{
    let bytes = id.as_bytes();
    if bytes.len() != 36 {
        return false;
    }
    let mut i: usize = 0;
    while i < 36
        invariant
            bytes@ == id.spec_bytes(),
            bytes@.len() == 36,
            0 <= i <= 36,
            forall|j: int|
                0 <= j < i ==> (if is_dash_position(j) {
                    bytes@[j] == 0x2d
                } else {
                    is_hex_lower_byte(#[trigger] bytes@[j])
                }),
        decreases 36 - i,
    {
        let b = bytes[i];
        let ok = if i == 8 || i == 13 || i == 18 || i == 23 {
            b == 0x2d
        } else {
            (0x30 <= b && b <= 0x39) || (0x61 <= b && b <= 0x66)
        };
        if !ok {
            return false;
        }
        i = i + 1;
    }
    true
}

} // verus!
