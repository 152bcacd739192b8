use vstd::prelude::*;

verus! {

/// A combinable set of navigation and input configuration toggles, stored as
/// the bitmask that the foreign GUI library reads from its global
/// configuration field.
///
/// Exactly one bit stands for each recognized option. Undefined bits are
/// accepted and passed through verbatim, so options added to the foreign
/// library later can be used without changes here.
#[derive(Clone, Copy, Debug, PartialEq, Eq, Hash, Structural)]
pub struct IgNavInputFlags {
    bits: u32,
}

impl View for IgNavInputFlags {
    type V = u32;

    closed spec fn view(&self) -> u32 {
        self.bits
    }
}

/// The flag set that `IgNavInputFlags::combine` returns: the bitwise union
/// of the two operands.
pub closed spec fn spec_combine(a: IgNavInputFlags, b: IgNavInputFlags) -> IgNavInputFlags {
    IgNavInputFlags { bits: a@ | b@ }
}

impl IgNavInputFlags {
    /// The empty flag set: no option enabled.
    pub fn empty() -> (r: IgNavInputFlags)
        ensures
            r@ == 0u32,
    {
        IgNavInputFlags { bits: 0 }
    }

    /// A flag set holding exactly the given bits, defined or not.
    pub fn from_bits(bits: u32) -> (r: IgNavInputFlags)
        ensures
            r@ == bits,
    {
        IgNavInputFlags { bits }
    }

    /// The raw bitmask, as it is written into the foreign configuration field.
    pub fn bits(&self) -> (r: u32)
        ensures
            r == self@,
    {
        self.bits
    }

    /// The bitwise union of two flag sets: every bit set in either operand is
    /// set in the result, and no other bit is.
    pub fn combine(self, other: IgNavInputFlags) -> (r: IgNavInputFlags)
        ensures
            r == spec_combine(self, other),
            r@ == (self@ | other@),
    {
        IgNavInputFlags { bits: self.bits | other.bits }
    }

    /// Whether every bit of `other` is also set in `self`.
    pub fn contains(self, other: IgNavInputFlags) -> (r: bool)
        ensures
            r == (self@ & other@ == other@),
    {
        self.bits & other.bits == other.bits
    }

    /// Keyboard-driven navigation.
    pub fn nav_enable_keyboard() -> (r: IgNavInputFlags)
        ensures
            r@ == 1u32,
    {
        IgNavInputFlags { bits: 1 }
    }

    /// Gamepad-driven navigation.
    pub fn nav_enable_gamepad() -> (r: IgNavInputFlags)
        ensures
            r@ == 2u32,
    {
        IgNavInputFlags { bits: 2 }
    }

    /// Let the GUI move the mouse position.
    pub fn nav_enable_set_mouse_pos() -> (r: IgNavInputFlags)
        ensures
            r@ == 4u32,
    {
        IgNavInputFlags { bits: 4 }
    }

    /// Do not capture the keyboard for navigation.
    pub fn nav_no_capture_keyboard() -> (r: IgNavInputFlags)
        ensures
            r@ == 8u32,
    {
        IgNavInputFlags { bits: 8 }
    }

    /// Ignore mouse input.
    pub fn nav_no_mouse() -> (r: IgNavInputFlags)
        ensures
            r@ == 16u32,
    {
        IgNavInputFlags { bits: 16 }
    }

    /// Do not change the mouse cursor shape.
    pub fn nav_no_mouse_cursor_change() -> (r: IgNavInputFlags)
        ensures
            r@ == 32u32,
    {
        IgNavInputFlags { bits: 32 }
    }

    /// Marker: the rendering surface is sRGB.
    pub fn nav_is_srgb() -> (r: IgNavInputFlags)
        ensures
            r@ == 0x10_0000u32,
    {
        IgNavInputFlags { bits: 0x10_0000 }
    }

    /// Marker: the device is a touch screen.
    pub fn nav_is_touch_screen() -> (r: IgNavInputFlags)
        ensures
            r@ == 0x20_0000u32,
    {
        IgNavInputFlags { bits: 0x20_0000 }
    }
}

/// Combining flag sets is associative and idempotent: grouping does not
/// matter, and combining a set with itself changes nothing.
pub proof fn lemma_combine_associative_idempotent(
    a: IgNavInputFlags,
    b: IgNavInputFlags,
    c: IgNavInputFlags,
)
    ensures
        spec_combine(spec_combine(a, b), c) == spec_combine(a, spec_combine(b, c)),
        spec_combine(a, a) == a,
{
    let x: u32 = a.bits;
    let y: u32 = b.bits;
    let z: u32 = c.bits;
    assert((x | y) | z == x | (y | z)) by (bit_vector);
    assert(x | x == x) by (bit_vector);
}

/// The bitwise union of a history of applied flag masks, oldest first.
pub open spec fn or_all(s: Seq<u32>) -> u32
    decreases s.len(),
{
    if s.len() == 0 {
        0u32
    } else {
        or_all(s.drop_last()) | s.last()
    }
}

/// Extending a history by one mask adds exactly that mask's bits to the union.
pub proof fn lemma_or_all_push(s: Seq<u32>, x: u32)
    ensures
        or_all(s.push(x)) == (or_all(s) | x),
{
    assert(s.push(x).drop_last() =~= s);
}

/// The union of a history keeps every bit of each mask that went into it.
pub proof fn lemma_or_all_contains_each(s: Seq<u32>, i: int)
    requires
        0 <= i < s.len(),
    ensures
        or_all(s) & s[i] == s[i],
    decreases s.len(),
{
    let last: u32 = s.last();
    let rest: u32 = or_all(s.drop_last());
    if i == s.len() - 1 {
        assert((rest | last) & last == last) by (bit_vector);
    } else {
        lemma_or_all_contains_each(s.drop_last(), i);
        let m: u32 = s[i];
        assert(rest & m == m ==> (rest | last) & m == m) by (bit_vector);
    }
}

} // verus!
