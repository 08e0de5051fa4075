//! The entry mode instruction: where the cursor moves after a write, and whether the
//! display shifts with it.
use vstd::prelude::*;

verus! {

/// Opcode bit of the entry mode instruction (bit 2).
pub const ENTRY_MODE: u8 = 0b0000_0100;

/// Bit 1: the address moves up after each write or read.
pub const CURSOR_MOVE_INCREMENT: u8 = 0b0000_0010;

/// Bit 0: the display shifts on each write.
pub const DISPLAY_SHIFT_ON: u8 = 0b0000_0001;

/// Enumeration of possible methods to move.
#[derive(Clone, Copy, Debug, PartialEq, Eq, Structural)]
pub enum MoveDirection {
    /// Moves right.
    Increment,
    /// Moves left.
    Decrement,
}

impl MoveDirection {
    /// The bits this option contributes to the instruction.
    pub open spec fn spec_bits(self) -> u8 {
        match self {
            MoveDirection::Increment => CURSOR_MOVE_INCREMENT,
            MoveDirection::Decrement => 0,
        }
    }

    /// The bits this option contributes to the instruction.
    pub fn bits(self) -> (r: u8)
        ensures
            r == self.spec_bits(),
    {
        match self {
            MoveDirection::Increment => CURSOR_MOVE_INCREMENT,
            MoveDirection::Decrement => 0,
        }
    }
}

/// Enumeration to set display shift.
#[derive(Clone, Copy, Debug, PartialEq, Eq, Structural)]
pub enum DisplayShift {
    On,
    Off,
}

impl DisplayShift {
    /// The bits this option contributes to the instruction.
    pub open spec fn spec_bits(self) -> u8 {
        match self {
            DisplayShift::On => DISPLAY_SHIFT_ON,
            DisplayShift::Off => 0,
        }
    }

    /// The bits this option contributes to the instruction.
    pub fn bits(self) -> (r: u8)
        ensures
            r == self.spec_bits(),
    {
        match self {
            DisplayShift::On => DISPLAY_SHIFT_ON,
            DisplayShift::Off => 0,
        }
    }
}

/// The entry mode instruction for the given options: the opcode bit OR one flag per option.
pub open spec fn entry_mode_command(direction: MoveDirection, shift: DisplayShift) -> u8 {
    ENTRY_MODE | direction.spec_bits() | shift.spec_bits()
}

/// A struct for creating display entry mode settings.
pub struct EntryModeBuilder {
    move_direction: MoveDirection,
    display_shift: DisplayShift,
}

impl EntryModeBuilder {
    /// The configured move direction.
    pub closed spec fn move_direction(&self) -> MoveDirection {
        self.move_direction
    }

    /// The configured display shift.
    pub closed spec fn display_shift(&self) -> DisplayShift {
        self.display_shift
    }

    /// The instruction byte this builder stands for.
    pub open spec fn spec_command(&self) -> u8 {
        entry_mode_command(self.move_direction(), self.display_shift())
    }

    /// Sets the direction the read/write cursor is moved when a character code is written to or
    /// read from the display.
    pub fn set_move_direction(&mut self, direction: MoveDirection) -> (r: &mut Self)
        ensures
            r.move_direction() == direction,
            r.display_shift() == old(self).display_shift(),
            *final(self) == *final(r),
    {
        self.move_direction = direction;
        self
    }

    /// Sets the display shift, which will be performed on character write, either `On` or `Off`.
    ///
    /// If display shift is enabled, it will seem as if the cursor does not move but the display
    /// does.
    ///
    /// **Note:** The display does not shift when reading.
    pub fn set_display_shift(&mut self, shift: DisplayShift) -> (r: &mut Self)
        ensures
            r.move_direction() == old(self).move_direction(),
            r.display_shift() == shift,
            *final(self) == *final(r),
    {
        self.display_shift = shift;
        self
    }

    /// Serializes the settings into the entry mode instruction byte.
    pub fn build_command(&self) -> (r: u8)
        ensures
            r == self.spec_command(),
    {
        let mut cmd = ENTRY_MODE;
        cmd = cmd | self.move_direction.bits();
        cmd = cmd | self.display_shift.bits();
        cmd
    }
}

impl Default for EntryModeBuilder {
    /// Makes a new `EntryModeBuilder` that moves the cursor with `Increment` and leaves the
    /// display shift `Off`.
    fn default() -> (r: Self)
        ensures
            r.move_direction() == MoveDirection::Increment,
            r.display_shift() == DisplayShift::Off,
    {
        EntryModeBuilder {
            move_direction: MoveDirection::Increment,
            display_shift: DisplayShift::Off,
        }
    }
}

/// Each option can be read back from its own bit of the instruction: the opcode bit is
/// always set, the "off" values contribute nothing and the upper bits stay clear.
pub proof fn lemma_entry_mode_bits(direction: MoveDirection, shift: DisplayShift)
    ensures
        ({
            let cmd = entry_mode_command(direction, shift);
            &&& cmd & ENTRY_MODE == ENTRY_MODE
            &&& (cmd & CURSOR_MOVE_INCREMENT == CURSOR_MOVE_INCREMENT) == (direction
                == MoveDirection::Increment)
            &&& (cmd & DISPLAY_SHIFT_ON == DISPLAY_SHIFT_ON) == (shift == DisplayShift::On)
            &&& cmd & 0xf8 == 0
        }),
{
    let x = direction.spec_bits();
    let y = shift.spec_bits();
    assert(((4u8 | x | y) & 4u8 == 4u8) && ((4u8 | x | y) & 2u8 == 2u8 <==> x == 2u8) && ((4u8 | x
        | y) & 1u8 == 1u8 <==> y == 1u8) && (4u8 | x | y) & 0xf8u8 == 0u8) by (bit_vector)
        requires
            x == 0 || x == 2,
            y == 0 || y == 1,
    ;
}

/// A builder with the default settings always serializes to the same documented byte.
pub proof fn lemma_default_command(builder: EntryModeBuilder)
    requires
        builder.move_direction() == MoveDirection::Increment,
        builder.display_shift() == DisplayShift::Off,
    ensures
        builder.spec_command() == 0b0000_0110,
{
    assert(4u8 | 2u8 | 0u8 == 6u8) by (bit_vector);
}

} // verus!
