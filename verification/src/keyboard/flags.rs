//! Fixed-width flag sets: the modifiers active for one event, and the lock
//! states that persist between events.
//!
//! Each set is one byte. What a set means is stated by arithmetic on that
//! byte (the flag with mask `m` is on where `bits / m` is odd), and the bit
//! operations that the code uses are proved to agree with it.

use vstd::prelude::*;

verus! {

/// Bit of [`ModifierFlags`] set while a shift key is held.
pub const MODIFIER_SHIFT: u8 = 0x01;

/// Bit of [`ModifierFlags`] set while num lock is enabled.
pub const MODIFIER_NUM_LOCK: u8 = 0x02;

/// Bit of [`ModifierFlags`] set while caps lock is enabled.
pub const MODIFIER_CAPS_LOCK: u8 = 0x04;

/// Bit of [`StateFlags`] set while num lock is enabled.
pub const STATE_NUM_LOCK: u8 = 0x01;

/// Bit of [`StateFlags`] set while scroll lock is enabled.
pub const STATE_SCROLL_LOCK: u8 = 0x02;

/// Bit of [`StateFlags`] set while caps lock is enabled.
pub const STATE_CAPS_LOCK: u8 = 0x04;

/// Bit of [`StateFlags`] set while function lock is enabled.
pub const STATE_FUNCTION_LOCK: u8 = 0x08;

/// Whether `mask` is the mask of one lock, that is one of the four low bits.
pub open spec fn is_lock_mask(mask: u8) -> bool {
    mask == STATE_NUM_LOCK || mask == STATE_SCROLL_LOCK || mask == STATE_CAPS_LOCK || mask
        == STATE_FUNCTION_LOCK
}

/// Whether the flag with the one-bit mask `mask` is on in `bits`.
pub open spec fn mask_is_on(bits: u8, mask: u8) -> bool
    recommends
        is_lock_mask(mask),
{
    (bits / mask) % 2 == 1
}

/// For a mask of one of the four low bits, testing the bit, flipping it and
/// reading the others agree with the arithmetic of [`mask_is_on`].
pub proof fn lemma_mask(bits: u8, mask: u8, other: u8)
    by (bit_vector)
    requires
        mask == 1 || mask == 2 || mask == 4 || mask == 8,
        other == 1 || other == 2 || other == 4 || other == 8,
    ensures
        (bits & mask != 0) == ((bits / mask) % 2 == 1),
        (bits & mask == mask) == ((bits / mask) % 2 == 1),
        (((bits ^ mask) / mask) % 2 == 1) == !((bits / mask) % 2 == 1),
        other != mask ==> ((((bits ^ mask) / other) % 2 == 1) == ((bits / other) % 2 == 1)),
        (bits ^ mask) ^ mask == bits,
{
}

/// Modifiers in effect at the time of a key event.
#[derive(Copy, Clone, Debug, PartialEq, Eq, Structural)]
pub struct ModifierFlags {
    pub bits: u8,
}

impl ModifierFlags {
    /// Whether the shift flag is on.
    pub open spec fn spec_shift(self) -> bool {
        mask_is_on(self.bits, MODIFIER_SHIFT)
    }

    /// Whether the num lock flag is on.
    pub open spec fn spec_num_lock(self) -> bool {
        mask_is_on(self.bits, MODIFIER_NUM_LOCK)
    }

    /// Whether the caps lock flag is on.
    pub open spec fn spec_caps_lock(self) -> bool {
        mask_is_on(self.bits, MODIFIER_CAPS_LOCK)
    }

    /// The flag set that holds exactly the given modifiers.
    pub open spec fn spec_from_modifiers(
        shift: bool,
        num_lock: bool,
        caps_lock: bool,
    ) -> ModifierFlags {
        ModifierFlags {
            bits: ((if shift {
                1int
            } else {
                0int
            }) + (if num_lock {
                2int
            } else {
                0int
            }) + (if caps_lock {
                4int
            } else {
                0int
            })) as u8,
        }
    }

    /// The set with no modifier active.
    pub fn empty() -> (flags: ModifierFlags)
        ensures
            flags == ModifierFlags::spec_from_modifiers(false, false, false),
    {
        ModifierFlags { bits: 0 }
    }

    /// Creates the flag set from the given contained booleans.
    pub fn from_modifiers(shift: bool, num_lock: bool, caps_lock: bool) -> (flags: ModifierFlags)
        ensures
            flags == ModifierFlags::spec_from_modifiers(shift, num_lock, caps_lock),
            flags.spec_shift() == shift,
            flags.spec_num_lock() == num_lock,
            flags.spec_caps_lock() == caps_lock,
    {
        let s: u8 = if shift { MODIFIER_SHIFT } else { 0 };
        let n: u8 = if num_lock { MODIFIER_NUM_LOCK } else { 0 };
        let c: u8 = if caps_lock { MODIFIER_CAPS_LOCK } else { 0 };
        assert(s | n | c == s + n + c) by (bit_vector)
            requires
                s == 0 || s == 1,
                n == 0 || n == 2,
                c == 0 || c == 4,
        ;
        ModifierFlags { bits: s | n | c }
    }

    /// Returns `true` if a shift modifier is active.
    pub fn shift(&self) -> (on: bool)
        ensures
            on == self.spec_shift(),
    {
        proof {
            lemma_mask(self.bits, MODIFIER_SHIFT, MODIFIER_SHIFT);
        }
        self.bits & MODIFIER_SHIFT != 0
    }

    /// Returns `true` if the num lock modifier is active.
    pub fn num_lock(&self) -> (on: bool)
        ensures
            on == self.spec_num_lock(),
    {
        proof {
            lemma_mask(self.bits, MODIFIER_NUM_LOCK, MODIFIER_NUM_LOCK);
        }
        self.bits & MODIFIER_NUM_LOCK != 0
    }

    /// Returns `true` if the caps lock modifier is active.
    pub fn caps_lock(&self) -> (on: bool)
        ensures
            on == self.spec_caps_lock(),
    {
        proof {
            lemma_mask(self.bits, MODIFIER_CAPS_LOCK, MODIFIER_CAPS_LOCK);
        }
        self.bits & MODIFIER_CAPS_LOCK != 0
    }
}

/// Lock states that persist between key events.
#[derive(Copy, Clone, Debug, PartialEq, Eq, Structural)]
pub struct StateFlags {
    pub bits: u8,
}

impl StateFlags {
    /// Whether num lock is enabled.
    pub open spec fn spec_num_lock(self) -> bool {
        mask_is_on(self.bits, STATE_NUM_LOCK)
    }

    /// Whether scroll lock is enabled.
    pub open spec fn spec_scroll_lock(self) -> bool {
        mask_is_on(self.bits, STATE_SCROLL_LOCK)
    }

    /// Whether caps lock is enabled.
    pub open spec fn spec_caps_lock(self) -> bool {
        mask_is_on(self.bits, STATE_CAPS_LOCK)
    }

    /// Whether function lock is enabled.
    pub open spec fn spec_function_lock(self) -> bool {
        mask_is_on(self.bits, STATE_FUNCTION_LOCK)
    }

    /// Whether `other` has every lock as `self` has it, but for the lock
    /// with the mask `mask`, which it has the other way round.
    pub open spec fn differs_in(self, other: StateFlags, mask: u8) -> bool {
        &&& other.spec_num_lock() == (self.spec_num_lock() != (mask == STATE_NUM_LOCK))
        &&& other.spec_scroll_lock() == (self.spec_scroll_lock() != (mask == STATE_SCROLL_LOCK))
        &&& other.spec_caps_lock() == (self.spec_caps_lock() != (mask == STATE_CAPS_LOCK))
        &&& other.spec_function_lock() == (self.spec_function_lock() != (mask
            == STATE_FUNCTION_LOCK))
    }

    /// The set with every lock disabled.
    pub fn empty() -> (flags: StateFlags)
        ensures
            flags.bits == 0,
    {
        StateFlags { bits: 0 }
    }

    /// Returns `true` if every bit of `mask` is set. For the mask of one
    /// lock that is to say that the lock is enabled.
    pub fn contains(&self, mask: u8) -> (on: bool)
        ensures
            on == (self.bits & mask == mask),
            is_lock_mask(mask) ==> on == mask_is_on(self.bits, mask),
    {
        proof {
            if is_lock_mask(mask) {
                lemma_mask(self.bits, mask, mask);
            }
        }
        self.bits & mask == mask
    }

    /// Flips the bits of `mask`. For the mask of one lock that is to flip
    /// that lock and leave the others as they are.
    pub fn toggle(&mut self, mask: u8)
        ensures
            final(self).bits == old(self).bits ^ mask,
            is_lock_mask(mask) ==> old(self).differs_in(*final(self), mask),
    {
        proof {
            if is_lock_mask(mask) {
                lemma_mask(self.bits, mask, STATE_NUM_LOCK);
                lemma_mask(self.bits, mask, STATE_SCROLL_LOCK);
                lemma_mask(self.bits, mask, STATE_CAPS_LOCK);
                lemma_mask(self.bits, mask, STATE_FUNCTION_LOCK);
            }
        }
        self.bits = self.bits ^ mask;
    }
}

} // verus!
