use vstd::prelude::*;

verus! {

/// A set of pressed modifier keys, one bit per modifier.
///
/// The named masks are `u32` constants; a set is built from them with
/// [`Modifiers::from_bits_truncate`] and asked with [`Modifiers::contains`].
#[derive(Clone, Copy, Debug, PartialEq, Eq, Structural, Hash)]
pub struct Modifiers {
    pub bits: u32,
}

impl Modifiers {
    pub const ALT: u32 = 0x01;

    pub const ALT_GRAPH: u32 = 0x02;

    pub const CAPS_LOCK: u32 = 0x04;

    pub const CONTROL: u32 = 0x08;

    pub const FN: u32 = 0x10;

    pub const FN_LOCK: u32 = 0x20;

    pub const META: u32 = 0x40;

    pub const NUM_LOCK: u32 = 0x80;

    pub const SCROLL_LOCK: u32 = 0x100;

    pub const SHIFT: u32 = 0x200;

    pub const SYMBOL: u32 = 0x400;

    pub const SYMBOL_LOCK: u32 = 0x800;

    pub const HYPER: u32 = 0x1000;

    pub const SUPER: u32 = 0x2000;

    /// Every named modifier.
    pub const ALL: u32 = 0x3fff;

    /// The four modifiers a hotkey can carry: Alt, Control, Shift and Super.
    pub const SUPPORTED: u32 = 0x2209;

    /// Whether every bit of `flags` is in the set.
    pub open spec fn has_all(&self, flags: u32) -> bool {
        self.bits & flags == flags
    }

    /// Whether some bit of `flags` is in the set.
    pub open spec fn has_any(&self, flags: u32) -> bool {
        self.bits & flags != 0
    }

    /// The set with no modifier.
    pub fn empty() -> (r: Self)
        ensures
            r.bits == 0,
    {
        Modifiers { bits: 0 }
    }

    /// The set of the named modifiers among `bits`; other bits are dropped.
    pub fn from_bits_truncate(bits: u32) -> (r: Self)
        ensures
            r.bits == bits & Self::ALL,
    {
        Modifiers { bits: bits & Self::ALL }
    }

    /// The bits of the set.
    pub fn bits(&self) -> (r: u32)
        ensures
            r == self.bits,
    {
        self.bits
    }

    pub fn is_empty(&self) -> (r: bool)
        ensures
            r == (self.bits == 0),
    {
        self.bits == 0
    }

    #[verifier::when_used_as_spec(has_all)]
    pub fn contains(&self, flags: u32) -> (r: bool)
        ensures
            r == self.has_all(flags),
    {
        self.bits & flags == flags
    }

    #[verifier::when_used_as_spec(has_any)]
    pub fn intersects(&self, flags: u32) -> (r: bool)
        ensures
            r == self.has_any(flags),
    {
        self.bits & flags != 0
    }

    /// Adds the bits of `flags` to the set.
    pub fn insert(&mut self, flags: u32)
        ensures
            final(self).bits == old(self).bits | flags,
    {
        self.bits = self.bits | flags;
    }

    /// Takes the bits of `flags` out of the set.
    pub fn remove(&mut self, flags: u32)
        ensures
            final(self).bits == old(self).bits & !flags,
    {
        self.bits = self.bits & !flags;
    }

    /// The set as a hotkey carries it: Meta counts as Super, and only Alt,
    /// Control, Shift and Super are kept.
    pub open spec fn normalized(&self) -> Modifiers {
        let bits = if self.bits & Self::META != 0 {
            self.bits | Self::SUPER
        } else {
            self.bits
        };
        Modifiers { bits: bits & Self::SUPPORTED }
    }

    /// Whether the set holds nothing but Alt, Control, Shift and Super.
    pub open spec fn is_normalized(&self) -> bool {
        self.bits & !Self::SUPPORTED == 0
    }

    pub fn normalize(&self) -> (r: Modifiers)
        ensures
            r == self.normalized(),
            r.is_normalized(),
    {
        let mut mods = *self;
        if mods.intersects(Self::META) {
            mods.insert(Self::SUPER);
        }
        let widened: u32 = mods.bits;
        let bits: u32 = widened & Self::SUPPORTED;
        assert(bits & !0x2209u32 == 0) by (bit_vector)
            requires
                bits == widened & 0x2209u32,
        ;
        Modifiers { bits }
    }
}

/// Normalizing a normalized set changes nothing.
pub proof fn lemma_normalized_is_fixed(mods: Modifiers)
    requires
        mods.is_normalized(),
    ensures
        mods.normalized() == mods,
{
    let b = mods.bits;
    assert(b & 0x40u32 == 0 && b & 0x2209u32 == b) by (bit_vector)
        requires
            b & !0x2209u32 == 0,
    ;
}

/// The normalized form of a set has Super exactly when the set has Super or
/// Meta, and Alt, Control and Shift exactly when the set has them.
pub proof fn lemma_normalized_members(mods: Modifiers)
    ensures
        mods.normalized().has_all(Modifiers::SUPER) == mods.has_any(
            Modifiers::SUPER | Modifiers::META,
        ),
        mods.normalized().has_all(Modifiers::ALT) == mods.has_all(Modifiers::ALT),
        mods.normalized().has_all(Modifiers::CONTROL) == mods.has_all(Modifiers::CONTROL),
        mods.normalized().has_all(Modifiers::SHIFT) == mods.has_all(Modifiers::SHIFT),
        mods.normalized().is_normalized(),
{
    let b = mods.bits;
    let n = mods.normalized().bits;
    assert(n == (if b & 0x40u32 != 0 { b | 0x2000u32 } else { b }) & 0x2209u32);
    assert({
        &&& (n & 0x2000u32 == 0x2000u32) == (b & (0x2000u32 | 0x40u32) != 0)
        &&& (n & 0x01u32 == 0x01u32) == (b & 0x01u32 == 0x01u32)
        &&& (n & 0x08u32 == 0x08u32) == (b & 0x08u32 == 0x08u32)
        &&& (n & 0x200u32 == 0x200u32) == (b & 0x200u32 == 0x200u32)
        &&& n & !0x2209u32 == 0
    }) by (bit_vector)
        requires
            n == (if b & 0x40u32 != 0 { b | 0x2000u32 } else { b }) & 0x2209u32,
    ;
}

} // verus!
