use vstd::prelude::*;

verus! {

/// Bit for the Right button in a controller snapshot.
pub const RIGHT: u8 = 0x01;

/// Bit for the Left button.
pub const LEFT: u8 = 0x02;

/// Bit for the Down button.
pub const DOWN: u8 = 0x04;

/// Bit for the Up button.
pub const UP: u8 = 0x08;

/// Bit for the Start button.
pub const START: u8 = 0x10;

/// Bit for the Select button.
pub const SELECT: u8 = 0x20;

/// Bit for the B button.
pub const B_BUTTON: u8 = 0x40;

/// Bit for the A button.
pub const A_BUTTON: u8 = 0x80;

/// One controller-input snapshot: an 8-bit flag set with bit 0 Right,
/// bit 1 Left, bit 2 Down, bit 3 Up, bit 4 Start, bit 5 Select, bit 6 B,
/// bit 7 A. An immutable value type, compared by equality.
#[derive(Clone, Copy, Debug, PartialEq, Eq, Structural)]
pub struct Input {
    pub bits: u8,
}

/// Whether a character of an fm2 input column marks its button as held:
/// any character other than a blank or a dot does.
pub open spec fn fm2_char_pressed(c: char) -> bool {
    c != ' ' && c != '.'
}

/// The contribution of one fm2 column character to the input byte.
pub open spec fn fm2_bit(c: char, value: u8) -> int {
    if fm2_char_pressed(c) {
        value as int
    } else {
        0
    }
}

/// The input byte encoded by an 8-character fm2 input column, character
/// `j` giving bit `j`.
pub open spec fn spec_fm2_bits(s: Seq<char>) -> u8
    recommends
        s.len() == 8,
{
    (fm2_bit(s[0], 0x01) + fm2_bit(s[1], 0x02) + fm2_bit(s[2], 0x04) + fm2_bit(s[3], 0x08)
        + fm2_bit(s[4], 0x10) + fm2_bit(s[5], 0x20) + fm2_bit(s[6], 0x40) + fm2_bit(
        s[7],
        0x80,
    )) as u8
}

impl Input {
    /// An empty snapshot: no button held.
    pub fn new() -> (r: Input)
        ensures
            r.bits == 0,
    {
        Input { bits: 0 }
    }

    /// The snapshot with exactly the given bits held.
    pub fn from_bits(bits: u8) -> (r: Input)
        ensures
            r.bits == bits,
    {
        Input { bits }
    }

    /// The buttons of `self` that are not held in `previous`: applied to
    /// the previous frame's snapshot this is the "newly pressed this
    /// frame" set.
    pub open spec fn spec_difference(self, previous: Input) -> Input {
        Input { bits: self.bits & !previous.bits }
    }

    /// Computes the flag difference `self AND NOT previous`.
    pub fn difference(self, previous: Input) -> (r: Input)
        ensures
            r == self.spec_difference(previous),
    {
        Input { bits: self.bits & !previous.bits }
    }

    /// Whether any button of `mask` is held in this snapshot.
    pub open spec fn spec_get(self, mask: u8) -> bool {
        self.bits & mask != 0
    }

    /// Tests whether any button of `mask` is held.
    pub fn get(self, mask: u8) -> (b: bool)
        ensures
            b == self.spec_get(mask),
    {
        self.bits & mask != 0
    }

    /// Decodes one 8-character fm2 input column: character `j` sets bit
    /// `j` unless it is a blank or a dot. Any other length is rejected.
    pub fn from_fm2_string(string: &String) -> (r: Result<Input, String>)
        ensures
            string@.len() == 8 ==> r == Ok::<Input, String>(Input { bits: spec_fm2_bits(string@) }),
            string@.len() != 8 ==> r is Err,
    {
        if string.as_str().unicode_len() != 8 {
            return Err(String::from_str("cannot create input from fm2 string of length != 8"));
        }

        let s = string.as_str();
        let b0: u8 = if fm2_pressed(s.get_char(0)) {
            0x01
        } else {
            0
        };
        let b1: u8 = if fm2_pressed(s.get_char(1)) {
            0x02
        } else {
            0
        };
        let b2: u8 = if fm2_pressed(s.get_char(2)) {
            0x04
        } else {
            0
        };
        let b3: u8 = if fm2_pressed(s.get_char(3)) {
            0x08
        } else {
            0
        };
        let b4: u8 = if fm2_pressed(s.get_char(4)) {
            0x10
        } else {
            0
        };
        let b5: u8 = if fm2_pressed(s.get_char(5)) {
            0x20
        } else {
            0
        };
        let b6: u8 = if fm2_pressed(s.get_char(6)) {
            0x40
        } else {
            0
        };
        let b7: u8 = if fm2_pressed(s.get_char(7)) {
            0x80
        } else {
            0
        };

        Ok(Input { bits: b0 + b1 + b2 + b3 + b4 + b5 + b6 + b7 })
    }
}

/// Tests whether an fm2 column character marks its button as held.
fn fm2_pressed(c: char) -> (b: bool)
    ensures
        b == fm2_char_pressed(c),
{
    c != ' ' && c != '.'
}

impl Default for Input {
    fn default() -> (r: Self)
        ensures
            r.bits == 0,
    {
        Input { bits: 0 }
    }
}

} // verus!
