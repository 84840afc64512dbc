//! Modifier flags that accompany a key press.

use vstd::prelude::*;

verus! {

/// A set of modifier flags packed into one integer. The four flags are
/// independent of each other and combine with `|`.
pub type ModifierState = u32;

/// A Control key is held.
pub const MODIFIER_CONTROL: ModifierState = 1;

/// A Super key is held.
pub const MODIFIER_SUPER: ModifierState = 2;

/// A Shift key is held.
pub const MODIFIER_SHIFT: ModifierState = 4;

/// An Alt key is held.
pub const MODIFIER_ALT: ModifierState = 8;

/// A modifier state is valid when no bit beyond the four named flags is set.
pub open spec fn modifier_state_valid(state: ModifierState) -> bool {
    state < 16
}

/// Whether the shift flag is set.
pub open spec fn shift_held(state: ModifierState) -> bool {
    state & MODIFIER_SHIFT != 0
}

/// Whether a flag that turns a key into a command (control, super, alt) is set.
pub open spec fn command_held(state: ModifierState) -> bool {
    state & (MODIFIER_CONTROL | MODIFIER_SUPER | MODIFIER_ALT) != 0
}

/// Validity is exactly the absence of bits outside the four flags.
pub proof fn lemma_valid_iff_no_foreign_bit(state: ModifierState)
    ensures
        modifier_state_valid(state) <==> state & !(MODIFIER_CONTROL | MODIFIER_SUPER
            | MODIFIER_SHIFT | MODIFIER_ALT) == 0,
{
    assert(state < 16 <==> state & !(1u32 | 2u32 | 4u32 | 8u32) == 0) by (bit_vector);
}

/// Tells whether `state` holds only the four named flags.
pub fn is_valid_modifier_state(state: ModifierState) -> (ok: bool)
    ensures
        ok == modifier_state_valid(state),
{
    state < 16
}

/// Tells whether the shift flag is set.
pub fn has_shift(state: ModifierState) -> (held: bool)
    ensures
        held == shift_held(state),
{
    state & MODIFIER_SHIFT != 0
}

/// Tells whether control, super or alt is set.
pub fn has_command(state: ModifierState) -> (held: bool)
    ensures
        held == command_held(state),
{
    state & (MODIFIER_CONTROL | MODIFIER_SUPER | MODIFIER_ALT) != 0
}

} // verus!
