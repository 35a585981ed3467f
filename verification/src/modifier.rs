//! Modifier-key state machine: which of Shift, Ctrl, Alt and GUI are held.
use vstd::prelude::*;
use crate::hid::{apply_key_to_mask, spec_apply_key, HidUsage, ModifierMask};

verus! {

/// Tracks which modifier keys are currently down.
#[derive(Clone, Copy, Debug, Default, PartialEq, Eq, Structural)]
pub struct ModifierState {
    mask: ModifierMask,
}

impl View for ModifierState {
    type V = u8;

    open spec fn view(&self) -> u8 {
        self.spec_mask()@
    }
}

impl ModifierState {
    /// The current mask, in spec code.
    pub closed spec fn spec_mask(&self) -> ModifierMask {
        self.mask
    }

    /// Nothing held.
    pub fn new() -> (s: ModifierState)
        ensures
            s@ == 0,
    {
        ModifierState { mask: ModifierMask::empty() }
    }

    /// Current bitmask.
    pub fn mask(&self) -> (m: ModifierMask)
        ensures
            m == self.spec_mask(),
    {
        self.mask
    }

    /// Apply a key press or release. Returns `true` iff `code` is a
    /// modifier and the mask changed.
    pub fn update(&mut self, code: HidUsage, pressed: bool) -> (changed: bool)
        ensures
            final(self)@ == spec_apply_key(old(self)@, code.0, pressed),
            changed == (final(self)@ != old(self)@),
    {
        let before = self.mask.bits();
        apply_key_to_mask(&mut self.mask, code, pressed);
        before != self.mask.bits()
    }

    /// Release every modifier.
    pub fn clear(&mut self)
        ensures
            final(self)@ == 0,
    {
        self.mask = ModifierMask::empty();
    }
}

/// Law: releasing a modifier that was just pressed clears its bit again,
/// pressing is idempotent, and keys that are not modifiers never change
/// the mask.
pub proof fn law_press_release(mask: u8, code: u16)
    ensures
        crate::hid::spec_modifier_bit(code) is None ==> spec_apply_key(mask, code, true) == mask
            && spec_apply_key(mask, code, false) == mask,
        spec_apply_key(spec_apply_key(mask, code, true), code, true) == spec_apply_key(mask, code, true),
        crate::hid::spec_modifier_bit(code) is Some && mask & crate::hid::spec_modifier_bit(code)->0 == 0
            ==> spec_apply_key(spec_apply_key(mask, code, true), code, false) == mask,
{
    match crate::hid::spec_modifier_bit(code) {
        Some(bit) => {
            assert((mask | bit) | bit == mask | bit) by (bit_vector);
            assert(mask & bit == 0 ==> (mask | bit) & !bit == mask) by (bit_vector);
        },
        None => {},
    }
}

} // verus!
