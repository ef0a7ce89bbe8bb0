//! The buttons of a paw.

use vstd::prelude::*;

verus! {

/// Flags representing the current state of the paw buttons.
///
/// Multiple buttons may be active at the same time, so that there is a value for every set of the
/// three flags. A value of `0` indicates that no buttons are pressed.
#[allow(non_camel_case_types)]
#[derive(Debug, Clone, Copy, PartialEq, Eq, Structural)]
pub enum PawButtons {
    /// No button is pressed.
    EMPTY,
    /// The bottom button is weakly pressed.
    BOTTOM_WEAK,
    /// The bottom button is strongly pressed.
    BOTTOM_STRONG,
    /// The flags of a weakly and of a strongly pressed bottom button are set.
    BOTTOM_WEAK_STRONG,
    /// The top button is pressed.
    TOP,
    /// The bottom button is weakly pressed, and the top button is pressed.
    BOTTOM_WEAK_TOP,
    /// The bottom button is strongly pressed, and the top button is pressed.
    BOTTOM_STRONG_TOP,
    /// All flags are set.
    ALL,
}

impl PawButtons {
    /// The number that holds the flags.
    pub open spec fn number(self) -> u8 {
        match self {
            PawButtons::EMPTY => 0b000,
            PawButtons::BOTTOM_WEAK => 0b001,
            PawButtons::BOTTOM_STRONG => 0b010,
            PawButtons::BOTTOM_WEAK_STRONG => 0b011,
            PawButtons::TOP => 0b100,
            PawButtons::BOTTOM_WEAK_TOP => 0b101,
            PawButtons::BOTTOM_STRONG_TOP => 0b110,
            PawButtons::ALL => 0b111,
        }
    }

    /// Whether the flag of a weakly pressed bottom button is set.
    pub open spec fn weak(self) -> bool {
        self.number() % 2 == 1
    }

    /// Whether the flag of a strongly pressed bottom button is set.
    pub open spec fn strong(self) -> bool {
        self.number() / 2 % 2 == 1
    }

    /// Whether the flag of the top button is set.
    pub open spec fn top(self) -> bool {
        self.number() / 4 % 2 == 1
    }

    /// The value with these flags.
    pub open spec fn of_flags(weak: bool, strong: bool, top: bool) -> Self {
        match (weak, strong, top) {
            (false, false, false) => PawButtons::EMPTY,
            (true, false, false) => PawButtons::BOTTOM_WEAK,
            (false, true, false) => PawButtons::BOTTOM_STRONG,
            (true, true, false) => PawButtons::BOTTOM_WEAK_STRONG,
            (false, false, true) => PawButtons::TOP,
            (true, false, true) => PawButtons::BOTTOM_WEAK_TOP,
            (false, true, true) => PawButtons::BOTTOM_STRONG_TOP,
            (true, true, true) => PawButtons::ALL,
        }
    }

    /// The flags that are set in `bits`, without the bits that are no flags.
    pub open spec fn of_bits(bits: u8) -> Self {
        PawButtons::of_flags(bits % 2 == 1, bits / 2 % 2 == 1, bits / 4 % 2 == 1)
    }

    /// The flags that are set in one of both.
    pub open spec fn either(self, other: Self) -> Self {
        PawButtons::of_flags(
            self.weak() || other.weak(),
            self.strong() || other.strong(),
            self.top() || other.top(),
        )
    }

    /// The flags that are set in both.
    pub open spec fn common(self, other: Self) -> Self {
        PawButtons::of_flags(
            self.weak() && other.weak(),
            self.strong() && other.strong(),
            self.top() && other.top(),
        )
    }

    /// The flags that are set here and not in `other`.
    pub open spec fn without(self, other: Self) -> Self {
        PawButtons::of_flags(
            self.weak() && !other.weak(),
            self.strong() && !other.strong(),
            self.top() && !other.top(),
        )
    }

    /// The flags that are set in exactly one of both.
    pub open spec fn changed(self, other: Self) -> Self {
        PawButtons::of_flags(
            self.weak() != other.weak(),
            self.strong() != other.strong(),
            self.top() != other.top(),
        )
    }

    /// The flags that are not set.
    pub open spec fn opposite(self) -> Self {
        PawButtons::of_flags(!self.weak(), !self.strong(), !self.top())
    }

    /// Whether every flag of `other` is set.
    pub open spec fn covers(self, other: Self) -> bool {
        &&& other.weak() ==> self.weak()
        &&& other.strong() ==> self.strong()
        &&& other.top() ==> self.top()
    }

    /// Whether some flag of `other` is set.
    pub open spec fn meets(self, other: Self) -> bool {
        ||| self.weak() && other.weak()
        ||| self.strong() && other.strong()
        ||| self.top() && other.top()
    }

    /// Return the value without any flag.
    pub fn empty() -> (buttons: Self)
        ensures
            buttons == PawButtons::EMPTY,
    {
        PawButtons::EMPTY
    }

    /// Return the value with all flags.
    pub fn all() -> (buttons: Self)
        ensures
            buttons == PawButtons::ALL,
    {
        PawButtons::ALL
    }

    /// Take the flags that are set in `bits` and drop the bits that are no flags.
    pub fn from_bits_truncate(bits: u8) -> (buttons: Self)
        ensures
            buttons == PawButtons::of_bits(bits),
            buttons.number() == bits % 8,
    {
        match bits % 8 {
            0b000 => PawButtons::EMPTY,
            0b001 => PawButtons::BOTTOM_WEAK,
            0b010 => PawButtons::BOTTOM_STRONG,
            0b011 => PawButtons::BOTTOM_WEAK_STRONG,
            0b100 => PawButtons::TOP,
            0b101 => PawButtons::BOTTOM_WEAK_TOP,
            0b110 => PawButtons::BOTTOM_STRONG_TOP,
            _ => PawButtons::ALL,
        }
    }

    /// Take the flags that are set in `bits`, unless other bits are set too.
    pub fn from_bits(bits: u8) -> (buttons: Option<Self>)
        ensures
            buttons == if bits < 8 {
                Some(PawButtons::of_bits(bits))
            } else {
                None
            },
    {
        if bits < 8 {
            Some(PawButtons::from_bits_truncate(bits))
        } else {
            None
        }
    }

    /// Return the flags as a number.
    pub fn bits(&self) -> (bits: u8)
        ensures
            bits == self.number(),
    {
        match self {
            PawButtons::EMPTY => 0b000,
            PawButtons::BOTTOM_WEAK => 0b001,
            PawButtons::BOTTOM_STRONG => 0b010,
            PawButtons::BOTTOM_WEAK_STRONG => 0b011,
            PawButtons::TOP => 0b100,
            PawButtons::BOTTOM_WEAK_TOP => 0b101,
            PawButtons::BOTTOM_STRONG_TOP => 0b110,
            PawButtons::ALL => 0b111,
        }
    }

    /// Tell whether no flag is set.
    pub fn is_empty(&self) -> (empty: bool)
        ensures
            empty == (*self == PawButtons::EMPTY),
    {
        *self == PawButtons::EMPTY
    }

    /// Tell whether all flags are set.
    pub fn is_all(&self) -> (all: bool)
        ensures
            all == (*self == PawButtons::ALL),
    {
        *self == PawButtons::ALL
    }

    /// Tell whether every flag of `other` is set.
    pub fn contains(&self, other: Self) -> (contained: bool)
        ensures
            contained == self.covers(other),
    {
        other.difference(*self).is_empty()
    }

    /// Tell whether some flag of `other` is set.
    pub fn intersects(&self, other: Self) -> (met: bool)
        ensures
            met == self.meets(other),
    {
        !self.intersection(other).is_empty()
    }

    /// Return the flags that are set in one of both.
    pub fn union(self, other: Self) -> (buttons: Self)
        ensures
            buttons == self.either(other),
    {
        let (first, second): (u8, u8) = (self.bits(), other.bits());
        assert(first < 8 && second < 8 ==> {
            &&& first | second < 8
            &&& (first | second) % 2 == 1 <==> first % 2 == 1 || second % 2 == 1
            &&& (first | second) / 2 % 2 == 1 <==> first / 2 % 2 == 1 || second / 2 % 2 == 1
            &&& (first | second) / 4 % 2 == 1 <==> first / 4 % 2 == 1 || second / 4 % 2 == 1
        }) by (bit_vector);
        PawButtons::from_bits_truncate(first | second)
    }

    /// Return the flags that are set in both.
    pub fn intersection(self, other: Self) -> (buttons: Self)
        ensures
            buttons == self.common(other),
    {
        let (first, second): (u8, u8) = (self.bits(), other.bits());
        assert(first < 8 && second < 8 ==> {
            &&& first & second < 8
            &&& (first & second) % 2 == 1 <==> first % 2 == 1 && second % 2 == 1
            &&& (first & second) / 2 % 2 == 1 <==> first / 2 % 2 == 1 && second / 2 % 2 == 1
            &&& (first & second) / 4 % 2 == 1 <==> first / 4 % 2 == 1 && second / 4 % 2 == 1
        }) by (bit_vector);
        PawButtons::from_bits_truncate(first & second)
    }

    /// Return the flags that are set here and not in `other`.
    pub fn difference(self, other: Self) -> (buttons: Self)
        ensures
            buttons == self.without(other),
    {
        self.intersection(other.complement())
    }

    /// Return the flags that are set in exactly one of both.
    pub fn symmetric_difference(self, other: Self) -> (buttons: Self)
        ensures
            buttons == self.changed(other),
    {
        self.difference(other).union(other.difference(self))
    }

    /// Return the flags that are not set.
    pub fn complement(self) -> (buttons: Self)
        ensures
            buttons == self.opposite(),
    {
        PawButtons::from_bits_truncate(7 - self.bits())
    }

    /// Set the flags of `other`.
    pub fn insert(&mut self, other: Self)
        ensures
            *final(self) == old(self).either(other),
    {
        *self = self.union(other);
    }

    /// Clear the flags of `other`.
    pub fn remove(&mut self, other: Self)
        ensures
            *final(self) == old(self).without(other),
    {
        *self = self.difference(other);
    }

    /// Turn the flags of `other` over.
    pub fn toggle(&mut self, other: Self)
        ensures
            *final(self) == old(self).changed(other),
    {
        *self = self.symmetric_difference(other);
    }

    /// Set or clear the flags of `other`.
    pub fn set(&mut self, other: Self, value: bool)
        ensures
            *final(self) == if value {
                old(self).either(other)
            } else {
                old(self).without(other)
            },
    {
        if value {
            self.insert(other);
        } else {
            self.remove(other);
        }
    }

    /// The names of the flags that are set, with bars between them; `0x0` where none is set.
    pub open spec fn text(self) -> Seq<char> {
        match self {
            PawButtons::EMPTY => "0x0"@,
            PawButtons::BOTTOM_WEAK => "BOTTOM_WEAK"@,
            PawButtons::BOTTOM_STRONG => "BOTTOM_STRONG"@,
            PawButtons::BOTTOM_WEAK_STRONG => "BOTTOM_WEAK | BOTTOM_STRONG"@,
            PawButtons::TOP => "TOP"@,
            PawButtons::BOTTOM_WEAK_TOP => "BOTTOM_WEAK | TOP"@,
            PawButtons::BOTTOM_STRONG_TOP => "BOTTOM_STRONG | TOP"@,
            PawButtons::ALL => "BOTTOM_WEAK | BOTTOM_STRONG | TOP"@,
        }
    }

    /// Write the names of the flags that are set.
    pub fn flag_names(&self) -> (names: String)
        ensures
            names@ == self.text(),
    {
        let names: &str = match self {
            PawButtons::EMPTY => "0x0",
            PawButtons::BOTTOM_WEAK => "BOTTOM_WEAK",
            PawButtons::BOTTOM_STRONG => "BOTTOM_STRONG",
            PawButtons::BOTTOM_WEAK_STRONG => "BOTTOM_WEAK | BOTTOM_STRONG",
            PawButtons::TOP => "TOP",
            PawButtons::BOTTOM_WEAK_TOP => "BOTTOM_WEAK | TOP",
            PawButtons::BOTTOM_STRONG_TOP => "BOTTOM_STRONG | TOP",
            PawButtons::ALL => "BOTTOM_WEAK | BOTTOM_STRONG | TOP",
        };
        names.to_owned()
    }
}

impl core::ops::BitOr for PawButtons {
    type Output = PawButtons;

    fn bitor(self, other: PawButtons) -> (buttons: PawButtons) {
        self.union(other)
    }
}

impl vstd::std_specs::ops::BitOrSpecImpl for PawButtons {
    open spec fn obeys_bitor_spec() -> bool {
        true
    }

    open spec fn bitor_req(self, other: PawButtons) -> bool {
        true
    }

    open spec fn bitor_spec(self, other: PawButtons) -> PawButtons {
        self.either(other)
    }
}

impl core::ops::BitAnd for PawButtons {
    type Output = PawButtons;

    fn bitand(self, other: PawButtons) -> (buttons: PawButtons) {
        self.intersection(other)
    }
}

impl vstd::std_specs::ops::BitAndSpecImpl for PawButtons {
    open spec fn obeys_bitand_spec() -> bool {
        true
    }

    open spec fn bitand_req(self, other: PawButtons) -> bool {
        true
    }

    open spec fn bitand_spec(self, other: PawButtons) -> PawButtons {
        self.common(other)
    }
}

impl core::ops::BitXor for PawButtons {
    type Output = PawButtons;

    fn bitxor(self, other: PawButtons) -> (buttons: PawButtons) {
        self.symmetric_difference(other)
    }
}

impl vstd::std_specs::ops::BitXorSpecImpl for PawButtons {
    open spec fn obeys_bitxor_spec() -> bool {
        true
    }

    open spec fn bitxor_req(self, other: PawButtons) -> bool {
        true
    }

    open spec fn bitxor_spec(self, other: PawButtons) -> PawButtons {
        self.changed(other)
    }
}

impl core::ops::Sub for PawButtons {
    type Output = PawButtons;

    fn sub(self, other: PawButtons) -> (buttons: PawButtons) {
        self.difference(other)
    }
}

impl vstd::std_specs::ops::SubSpecImpl for PawButtons {
    open spec fn obeys_sub_spec() -> bool {
        true
    }

    open spec fn sub_req(self, other: PawButtons) -> bool {
        true
    }

    open spec fn sub_spec(self, other: PawButtons) -> PawButtons {
        self.without(other)
    }
}

impl core::ops::Not for PawButtons {
    type Output = PawButtons;

    fn not(self) -> (buttons: PawButtons) {
        self.complement()
    }
}

impl vstd::std_specs::ops::NotSpecImpl for PawButtons {
    open spec fn obeys_not_spec() -> bool {
        true
    }

    open spec fn not_req(self) -> bool {
        true
    }

    open spec fn not_spec(self) -> PawButtons {
        self.opposite()
    }
}

// Laws.

/// The flags of a value determine it, and so does its number, which is at most `7`.
pub proof fn flags_determine_the_buttons(buttons: PawButtons, other: PawButtons)
    ensures
        PawButtons::of_flags(buttons.weak(), buttons.strong(), buttons.top()) == buttons,
        PawButtons::of_bits(buttons.number()) == buttons,
        buttons.number() <= 7,
        buttons.number() == other.number() ==> buttons == other,
{
}

/// Reading a byte keeps the three flags and drops all other bits.
pub proof fn other_bits_are_dropped(bits: u8)
    ensures
        PawButtons::of_bits(bits).number() == bits % 8,
{
}

} // verus!
