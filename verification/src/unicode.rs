//! Code points and characters.

use vstd::prelude::*;

verus! {

/// A Unicode scalar value: any code point but a surrogate.
pub open spec fn is_scalar(code: u32) -> bool {
    code < 0xD800 || 0xE000 <= code <= 0x10FFFF
}

/// `char::from_u32` of the standard library, taken on trust: it gives the
/// character with the scalar value `i`, and `None` exactly when `i` is no
/// scalar value.
pub assume_specification[ char::from_u32 ](i: u32) -> (r: Option<char>)
    ensures
        r == if is_scalar(i) {
            Some(i as char)
        } else {
            None::<char>
        },
;

/// The character with the scalar value `code`.
pub fn scalar(code: u32) -> (c: char)
    requires
        is_scalar(code),
    ensures
        c as u32 == code,
{
    match char::from_u32(code) {
        Some(c) => c,
        None => vstd::pervasive::unreached(),
    }
}

} // verus!
