use crate::code::lemma_index_bounded;
use crate::code::lemma_index_injective;
pub use crate::code::Code;
pub use crate::modifiers::Modifiers;
use vstd::prelude::*;

verus! {

/// The identifier of the hotkey made of `mods` and `key`: the modifier bits
/// in the upper half, the key's index in the lower half.
pub open spec fn hotkey_id(mods: Modifiers, key: Code) -> u32 {
    (mods.bits << 16) | key.spec_index()
}

/// A key with the modifiers that must be held with it, and the identifier
/// derived from the two.
///
/// A value is made by [`HotKey::new`] and never changes. Its modifiers are
/// normalized: Meta counts as Super, and only Alt, Control, Shift and Super
/// are kept.
#[derive(Clone, Copy, Debug, PartialEq, Eq, Structural, Hash)]
pub struct HotKey {
    mods: Modifiers,
    key: Code,
    id: u32,
}

impl HotKey {
    pub closed spec fn spec_mods(&self) -> Modifiers {
        self.mods
    }

    pub closed spec fn spec_key(&self) -> Code {
        self.key
    }

    pub closed spec fn spec_id(&self) -> u32 {
        self.id
    }

    /// What holds of every hotkey that runs through executable code.
    #[verifier::type_invariant]
    pub open spec fn wf(&self) -> bool {
        &&& self.spec_mods().is_normalized()
        &&& self.spec_id() == hotkey_id(self.spec_mods(), self.spec_key())
    }

    /// The hotkey that [`HotKey::new`] makes of `mods` and `key`.
    pub closed spec fn spec_new(mods: Option<Modifiers>, key: Code) -> HotKey {
        let mods = match mods {
            Some(m) => m.normalized(),
            None => Modifiers { bits: 0 },
        };
        HotKey { mods, key, id: hotkey_id(mods, key) }
    }

    /// Makes the hotkey of `key` held with `mods`; `None` stands for no
    /// modifier.
    #[verifier::when_used_as_spec(spec_new)]
    pub fn new(mods: Option<Modifiers>, key: Code) -> (r: HotKey)
        ensures
            r == Self::spec_new(mods, key),
            r.wf(),
            r.spec_key() == key,
            r.spec_mods() == (match mods {
                Some(m) => m.normalized(),
                None => (Modifiers { bits: 0 }),
            }),
            r.spec_id() == hotkey_id(r.spec_mods(), key),
    {
        let mods = match mods {
            Some(m) => m.normalize(),
            None => {
                assert(0u32 & !0x2209u32 == 0) by (bit_vector);
                Modifiers::empty()
            },
        };
        let bits: u32 = mods.bits();
        let id: u32 = (bits << 16) | key.index();
        HotKey { mods, key, id }
    }

    /// The modifiers of the hotkey.
    #[verifier::when_used_as_spec(spec_mods)]
    pub fn mods(&self) -> (r: Modifiers)
        ensures
            r == self.spec_mods(),
            r.is_normalized(),
    {
        proof {
            use_type_invariant(self);
        }
        self.mods
    }

    /// The key of the hotkey.
    #[verifier::when_used_as_spec(spec_key)]
    pub fn key(&self) -> (r: Code)
        ensures
            r == self.spec_key(),
    {
        self.key
    }

    /// The identifier of the hotkey.
    #[verifier::when_used_as_spec(spec_id)]
    pub fn id(&self) -> (r: u32)
        ensures
            r == self.spec_id(),
            r == hotkey_id(self.spec_mods(), self.spec_key()),
    {
        proof {
            use_type_invariant(self);
        }
        self.id
    }

    /// Whether the hotkey is `key` held with exactly the modifiers of
    /// `modifiers`, once normalized.
    pub fn matches(&self, modifiers: Modifiers, key: Code) -> (r: bool)
        ensures
            r == (self.spec_mods() == modifiers.normalized() && self.spec_key() == key),
    {
        let wanted = modifiers.normalize();
        self.mods == wanted && self.key == key
    }
}

/// What `HotKey::new` returns, by its parts.
pub proof fn lemma_new_parts(mods: Option<Modifiers>, key: Code)
    ensures
        HotKey::spec_new(mods, key).wf(),
        HotKey::spec_new(mods, key).spec_key() == key,
        HotKey::spec_new(mods, key).spec_mods() == (match mods {
            Some(m) => m.normalized(),
            None => (Modifiers { bits: 0 }),
        }),
{
    match mods {
        Some(m) => {
            crate::modifiers::lemma_normalized_members(m);
        },
        None => {
            assert(0u32 & !0x2209u32 == 0) by (bit_vector);
        },
    }
}

/// Two hotkeys with the same modifiers, key and identifier are one hotkey.
pub proof fn lemma_hotkey_by_parts(a: HotKey, b: HotKey)
    requires
        a.spec_mods() == b.spec_mods(),
        a.spec_key() == b.spec_key(),
        a.spec_id() == b.spec_id(),
    ensures
        a == b,
{
}

/// The identifier tells the modifiers and the key: of normalized modifier
/// sets, two that give the same identifier with their keys are equal, and so
/// are the keys.
pub proof fn lemma_hotkey_id_injective(m1: Modifiers, k1: Code, m2: Modifiers, k2: Code)
    requires
        m1.is_normalized(),
        m2.is_normalized(),
        hotkey_id(m1, k1) == hotkey_id(m2, k2),
    ensures
        m1 == m2,
        k1 == k2,
{
    let a = m1.bits;
    let b = m2.bits;
    let i = k1.spec_index();
    let j = k2.spec_index();
    lemma_index_bounded(k1);
    lemma_index_bounded(k2);
    assert(a == b && i == j) by (bit_vector)
        requires
            a & !0x2209u32 == 0,
            b & !0x2209u32 == 0,
            i < 0x10000u32,
            j < 0x10000u32,
            (a << 16) | i == (b << 16) | j,
    ;
    lemma_index_injective(k1, k2);
}

/// Two well-formed hotkeys with the same identifier are one hotkey.
pub proof fn lemma_same_id_same_hotkey(a: HotKey, b: HotKey)
    requires
        a.wf(),
        b.wf(),
        a.spec_id() == b.spec_id(),
    ensures
        a == b,
{
    lemma_hotkey_id_injective(a.spec_mods(), a.spec_key(), b.spec_mods(), b.spec_key());
}

} // verus!
