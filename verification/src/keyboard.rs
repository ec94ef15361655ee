//! Keyboard types.

use vstd::prelude::*;

verus! {

/// The modifier keys of the UI Events specification.
#[derive(Debug, Clone, Copy, PartialEq, Eq, Structural)]
pub enum ModifierKey {
    Alt,
    AltGraph,
    CapsLock,
    Control,
    Fn,
    FnLock,
    Meta,
    NumLock,
    ScrollLock,
    Shift,
    Symbol,
    SymbolLock,
    Hyper,
    Super,
}

impl ModifierKey {
    /// The bit that stands for the key in `keyboard_types::Modifiers`.
    pub open spec fn mask(self) -> u32 {
        match self {
            ModifierKey::Alt => 0x01,
            ModifierKey::AltGraph => 0x2,
            ModifierKey::CapsLock => 0x4,
            ModifierKey::Control => 0x8,
            ModifierKey::Fn => 0x10,
            ModifierKey::FnLock => 0x20,
            ModifierKey::Meta => 0x40,
            ModifierKey::NumLock => 0x80,
            ModifierKey::ScrollLock => 0x100,
            ModifierKey::Shift => 0x200,
            ModifierKey::Symbol => 0x400,
            ModifierKey::SymbolLock => 0x800,
            ModifierKey::Hyper => 0x1000,
            ModifierKey::Super => 0x2000,
        }
    }

    /// Computes [`ModifierKey::mask`].
    pub fn bit(&self) -> (mask: u32)
        ensures
            mask == self.mask(),
    {
        match self {
            ModifierKey::Alt => 0x01,
            ModifierKey::AltGraph => 0x2,
            ModifierKey::CapsLock => 0x4,
            ModifierKey::Control => 0x8,
            ModifierKey::Fn => 0x10,
            ModifierKey::FnLock => 0x20,
            ModifierKey::Meta => 0x40,
            ModifierKey::NumLock => 0x80,
            ModifierKey::ScrollLock => 0x100,
            ModifierKey::Shift => 0x200,
            ModifierKey::Symbol => 0x400,
            ModifierKey::SymbolLock => 0x800,
            ModifierKey::Hyper => 0x1000,
            ModifierKey::Super => 0x2000,
        }
    }

    /// Which bit of the mask is set.
    pub open spec fn index(self) -> u32 {
        match self {
            ModifierKey::Alt => 0,
            ModifierKey::AltGraph => 1,
            ModifierKey::CapsLock => 2,
            ModifierKey::Control => 3,
            ModifierKey::Fn => 4,
            ModifierKey::FnLock => 5,
            ModifierKey::Meta => 6,
            ModifierKey::NumLock => 7,
            ModifierKey::ScrollLock => 8,
            ModifierKey::Shift => 9,
            ModifierKey::Symbol => 10,
            ModifierKey::SymbolLock => 11,
            ModifierKey::Hyper => 12,
            ModifierKey::Super => 13,
        }
    }
}

/// The keys whose bit is set in `bits`. Other bits stand for nothing.
pub open spec fn keys_in(bits: u32) -> Set<ModifierKey> {
    Set::new(|key: ModifierKey| bits & key.mask() != 0)
}

/// `keyboard_types::Modifiers`, a set of modifier keys that only the crate
/// that defines it can look into.
#[verifier::external_type_specification]
#[verifier::external_body]
pub struct ExModifiers(keyboard_types::Modifiers);

/// The keys that a `keyboard_types::Modifiers` holds.
pub uninterp spec fn held(modifiers: keyboard_types::Modifiers) -> Set<ModifierKey>;

/// `keyboard_types::Modifiers::from_bits_truncate`: the set of the keys whose
/// bit is set in `bits`; bits that stand for no key are dropped.
#[verifier::external_body]
fn modifiers_from_bits(bits: u32) -> (modifiers: keyboard_types::Modifiers)
    ensures
        held(modifiers) == keys_in(bits),
{
    keyboard_types::Modifiers::from_bits_truncate(bits)
}

/// `keyboard_types::Modifiers::empty`: the set that holds no key.
#[verifier::external_body]
fn modifiers_empty() -> (modifiers: keyboard_types::Modifiers)
    ensures
        held(modifiers) == Set::<ModifierKey>::empty(),
{
    keyboard_types::Modifiers::empty()
}

/// `keyboard_types::Modifiers::is_empty`: whether the set holds no key.
#[verifier::external_body]
fn modifiers_is_empty(modifiers: &keyboard_types::Modifiers) -> (empty: bool)
    ensures
        empty == (held(*modifiers) == Set::<ModifierKey>::empty()),
{
    modifiers.is_empty()
}

/// `keyboard_types::Modifiers::contains`: whether every key of `other` is in
/// `modifiers`.
#[verifier::external_body]
fn modifiers_contains(modifiers: &keyboard_types::Modifiers, other: keyboard_types::Modifiers) -> (
    all: bool
)
    ensures
        all == held(other).subset_of(held(*modifiers)),
{
    modifiers.contains(other)
}

/// `keyboard_types::Modifiers::set`: puts the keys of `other` into
/// `modifiers` where `value` is true, and takes them out where it is false.
#[verifier::external_body]
fn modifiers_set(
    modifiers: &mut keyboard_types::Modifiers,
    other: keyboard_types::Modifiers,
    value: bool,
)
    ensures
        held(*final(modifiers)) == if value {
            held(*old(modifiers)).union(held(other))
        } else {
            held(*old(modifiers)).difference(held(other))
        },
{
    modifiers.set(other, value)
}

/// `BitOr` of `keyboard_types::Modifiers`: the keys of either set.
#[verifier::external_body]
fn modifiers_union(a: keyboard_types::Modifiers, b: keyboard_types::Modifiers) -> (both:
    keyboard_types::Modifiers)
    ensures
        held(both) == held(a).union(held(b)),
{
    a | b
}

/// `BitAnd` of `keyboard_types::Modifiers`: the keys of both sets.
#[verifier::external_body]
fn modifiers_intersection(a: keyboard_types::Modifiers, b: keyboard_types::Modifiers) -> (common:
    keyboard_types::Modifiers)
    ensures
        held(common) == held(a).intersect(held(b)),
{
    a & b
}

/// `BitXor` of `keyboard_types::Modifiers`: the keys of one set and not of
/// the other.
#[verifier::external_body]
fn modifiers_difference(a: keyboard_types::Modifiers, b: keyboard_types::Modifiers) -> (either:
    keyboard_types::Modifiers)
    ensures
        held(either) == held(a).difference(held(b)).union(held(b).difference(held(a))),
{
    a ^ b
}

/// `Not` of `keyboard_types::Modifiers`: the keys that the set does not
/// hold.
#[verifier::external_body]
fn modifiers_complement(a: keyboard_types::Modifiers) -> (others: keyboard_types::Modifiers)
    ensures
        held(others) == Set::<ModifierKey>::full().difference(held(a)),
{
    !a
}

/// The modifiers.
///
/// This type is a thin wrapper around `keyboard_types::Modifiers`,
/// mostly for the convenience methods.
#[derive(Clone, Copy, Debug, Eq, Hash, PartialEq)]
pub struct KeyModifiers(pub keyboard_types::Modifiers);

impl View for KeyModifiers {
    type V = Set<ModifierKey>;

    open spec fn view(&self) -> Set<ModifierKey> {
        held(self.0)
    }
}

/// The mask of a key is the one bit that its index names.
proof fn lemma_mask_is_one_bit(key: ModifierKey)
    ensures
        key.mask() == 1u32 << key.index(),
        key.index() < 32,
{
    assert(0x01u32 == 1u32 << 0u32 && 0x2u32 == 1u32 << 1u32 && 0x4u32 == 1u32 << 2u32 && 0x8u32
        == 1u32 << 3u32 && 0x10u32 == 1u32 << 4u32 && 0x20u32 == 1u32 << 5u32 && 0x40u32 == 1u32
        << 6u32 && 0x80u32 == 1u32 << 7u32 && 0x100u32 == 1u32 << 8u32 && 0x200u32 == 1u32 << 9u32
        && 0x400u32 == 1u32 << 10u32 && 0x800u32 == 1u32 << 11u32 && 0x1000u32 == 1u32 << 12u32
        && 0x2000u32 == 1u32 << 13u32) by (bit_vector);
}

/// Two keys share a bit only if they are the same key.
pub proof fn lemma_masks_are_distinct(a: ModifierKey, b: ModifierKey)
    ensures
        a.mask() & b.mask() != 0 <==> a == b,
{
    let i = a.index();
    let j = b.index();
    lemma_mask_is_one_bit(a);
    lemma_mask_is_one_bit(b);
    assert(((1u32 << i) & (1u32 << j) != 0) <==> i == j) by (bit_vector)
        requires
            i < 32,
            j < 32,
    ;
}

/// The bit of one key stands for that key alone.
pub proof fn lemma_single_key(key: ModifierKey)
    ensures
        keys_in(key.mask()) == set![key],
{
    assert forall|other: ModifierKey| keys_in(key.mask()).contains(other) <==> other == key by {
        lemma_masks_are_distinct(key, other);
    }
    assert(keys_in(key.mask()) =~= set![key]);
}

impl KeyModifiers {
    /// The set that holds `key` and nothing else.
    pub fn flag(key: ModifierKey) -> (modifiers: KeyModifiers)
        ensures
            modifiers@ == set![key],
    {
        proof {
            lemma_single_key(key);
        }
        KeyModifiers(modifiers_from_bits(key.bit()))
    }

    /// Get the inner value.
    pub fn raw(&self) -> (inner: keyboard_types::Modifiers)
        ensures
            held(inner) == self@,
    {
        self.0
    }

    /// Determine whether Shift is set.
    pub fn shift(&self) -> (set: bool)
        ensures
            set == self@.contains(ModifierKey::Shift),
    {
        self.contains(KeyModifiers::flag(ModifierKey::Shift))
    }

    /// Determine whether Ctrl is set.
    pub fn ctrl(&self) -> (set: bool)
        ensures
            set == self@.contains(ModifierKey::Control),
    {
        self.contains(KeyModifiers::flag(ModifierKey::Control))
    }

    /// Determine whether Alt is set.
    pub fn alt(&self) -> (set: bool)
        ensures
            set == self@.contains(ModifierKey::Alt),
    {
        self.contains(KeyModifiers::flag(ModifierKey::Alt))
    }

    /// Determine whether Meta is set.
    pub fn meta(&self) -> (set: bool)
        ensures
            set == self@.contains(ModifierKey::Meta),
    {
        self.contains(KeyModifiers::flag(ModifierKey::Meta))
    }

    /// Returns an empty set of modifiers.
    pub fn empty() -> (modifiers: KeyModifiers)
        ensures
            modifiers@ == Set::<ModifierKey>::empty(),
    {
        KeyModifiers(modifiers_empty())
    }

    /// Returns `true` if no modifiers are set.
    pub fn is_empty(&self) -> (empty: bool)
        ensures
            empty == (self@ == Set::<ModifierKey>::empty()),
    {
        modifiers_is_empty(&self.0)
    }

    /// Returns `true` if all the modifiers in `other` are set.
    pub fn contains(&self, other: KeyModifiers) -> (all: bool)
        ensures
            all == other@.subset_of(self@),
    {
        modifiers_contains(&self.0, other.0)
    }

    /// Inserts or removes the specified modifiers depending on the passed value.
    pub fn set(&mut self, other: KeyModifiers, value: bool)
        ensures
            final(self)@ == if value {
                old(self)@.union(other@)
            } else {
                old(self)@.difference(other@)
            },
    {
        modifiers_set(&mut self.0, other.0, value)
    }
}

impl core::ops::BitAnd for KeyModifiers {
    type Output = KeyModifiers;

    fn bitand(self, rhs: KeyModifiers) -> (common: KeyModifiers)
        ensures
            common@ == self@.intersect(rhs@),
    {
        KeyModifiers(modifiers_intersection(self.0, rhs.0))
    }
}

impl vstd::std_specs::ops::BitAndSpecImpl for KeyModifiers {
    /// The result is told by its keys alone, not as a value.
    open spec fn obeys_bitand_spec() -> bool {
        false
    }

    open spec fn bitand_req(self, rhs: KeyModifiers) -> bool {
        true
    }

    open spec fn bitand_spec(self, rhs: KeyModifiers) -> KeyModifiers {
        self
    }
}

impl core::ops::BitOr for KeyModifiers {
    type Output = KeyModifiers;

    fn bitor(self, rhs: KeyModifiers) -> (both: KeyModifiers)
        ensures
            both@ == self@.union(rhs@),
    {
        KeyModifiers(modifiers_union(self.0, rhs.0))
    }
}

impl vstd::std_specs::ops::BitOrSpecImpl for KeyModifiers {
    /// The result is told by its keys alone, not as a value.
    open spec fn obeys_bitor_spec() -> bool {
        false
    }

    open spec fn bitor_req(self, rhs: KeyModifiers) -> bool {
        true
    }

    open spec fn bitor_spec(self, rhs: KeyModifiers) -> KeyModifiers {
        self
    }
}

impl core::ops::BitXor for KeyModifiers {
    type Output = KeyModifiers;

    fn bitxor(self, rhs: KeyModifiers) -> (either: KeyModifiers)
        ensures
            either@ == self@.difference(rhs@).union(rhs@.difference(self@)),
    {
        KeyModifiers(modifiers_difference(self.0, rhs.0))
    }
}

impl vstd::std_specs::ops::BitXorSpecImpl for KeyModifiers {
    /// The result is told by its keys alone, not as a value.
    open spec fn obeys_bitxor_spec() -> bool {
        false
    }

    open spec fn bitxor_req(self, rhs: KeyModifiers) -> bool {
        true
    }

    open spec fn bitxor_spec(self, rhs: KeyModifiers) -> KeyModifiers {
        self
    }
}

impl core::ops::Not for KeyModifiers {
    type Output = KeyModifiers;

    fn not(self) -> (others: KeyModifiers)
        ensures
            others@ == Set::<ModifierKey>::full().difference(self@),
    {
        KeyModifiers(modifiers_complement(self.0))
    }
}

impl vstd::std_specs::ops::NotSpecImpl for KeyModifiers {
    /// The result is told by its keys alone, not as a value.
    open spec fn obeys_not_spec() -> bool {
        false
    }

    open spec fn not_req(self) -> bool {
        true
    }

    open spec fn not_spec(self) -> KeyModifiers {
        self
    }
}

impl Default for KeyModifiers {
    fn default() -> (modifiers: KeyModifiers)
        ensures
            modifiers@ == Set::<ModifierKey>::empty(),
    {
        KeyModifiers::empty()
    }
}

} // verus!
