//! The display control instruction: display, cursor and cursor blinking on or off.
use vstd::prelude::*;

verus! {

/// Opcode bit of the display control instruction (bit 3).
pub const DISPLAY_CONTROL: u8 = 0b0000_1000;

/// Bit 2: the whole display is on.
pub const DISPLAY_ON: u8 = 0b0000_0100;

/// Bit 1: the cursor is shown.
pub const CURSOR_ON: u8 = 0b0000_0010;

/// Bit 0: the character at the cursor blinks.
pub const CURSOR_BLINKING_ON: u8 = 0b0000_0001;

/// State of a display.
#[derive(Clone, Copy, Debug, PartialEq, Eq, Structural)]
pub enum DisplayState {
    On,
    Off,
}

impl DisplayState {
    /// The bits this option contributes to the instruction.
    pub open spec fn spec_bits(self) -> u8 {
        match self {
            DisplayState::On => DISPLAY_ON,
            DisplayState::Off => 0,
        }
    }

    /// The bits this option contributes to the instruction.
    pub fn bits(self) -> (r: u8)
        ensures
            r == self.spec_bits(),
    {
        match self {
            DisplayState::On => DISPLAY_ON,
            DisplayState::Off => 0,
        }
    }
}

/// State of a cursor.
#[derive(Clone, Copy, Debug, PartialEq, Eq, Structural)]
pub enum CursorState {
    On,
    Off,
}

impl CursorState {
    /// The bits this option contributes to the instruction.
    pub open spec fn spec_bits(self) -> u8 {
        match self {
            CursorState::On => CURSOR_ON,
            CursorState::Off => 0,
        }
    }

    /// The bits this option contributes to the instruction.
    pub fn bits(self) -> (r: u8)
        ensures
            r == self.spec_bits(),
    {
        match self {
            CursorState::On => CURSOR_ON,
            CursorState::Off => 0,
        }
    }
}

/// Sets cursor blinking.
#[derive(Clone, Copy, Debug, PartialEq, Eq, Structural)]
pub enum CursorBlinking {
    On,
    Off,
}

impl CursorBlinking {
    /// The bits this option contributes to the instruction.
    pub open spec fn spec_bits(self) -> u8 {
        match self {
            CursorBlinking::On => CURSOR_BLINKING_ON,
            CursorBlinking::Off => 0,
        }
    }

    /// The bits this option contributes to the instruction.
    pub fn bits(self) -> (r: u8)
        ensures
            r == self.spec_bits(),
    {
        match self {
            CursorBlinking::On => CURSOR_BLINKING_ON,
            CursorBlinking::Off => 0,
        }
    }
}

/// The display control instruction for the given options: the opcode bit OR one flag per option.
pub open spec fn display_control_command(
    display: DisplayState,
    cursor: CursorState,
    blinking: CursorBlinking,
) -> u8 {
    DISPLAY_CONTROL | display.spec_bits() | cursor.spec_bits() | blinking.spec_bits()
}

/// A struct for creating display control settings.
pub struct DisplayControlBuilder {
    display: DisplayState,
    cursor: CursorState,
    blinking: CursorBlinking,
}

impl DisplayControlBuilder {
    /// The configured display state.
    pub closed spec fn display_state(&self) -> DisplayState {
        self.display
    }

    /// The configured cursor state.
    pub closed spec fn cursor_state(&self) -> CursorState {
        self.cursor
    }

    /// The configured cursor blinking.
    pub closed spec fn cursor_blinking(&self) -> CursorBlinking {
        self.blinking
    }

    /// The instruction byte this builder stands for.
    pub open spec fn spec_command(&self) -> u8 {
        display_control_command(self.display_state(), self.cursor_state(), self.cursor_blinking())
    }

    /// Sets the entire display `On` or `Off`.
    ///
    /// Default is `On`.
    pub fn set_display(&mut self, state: DisplayState) -> (r: &mut Self)
        ensures
            r.display_state() == state,
            r.cursor_state() == old(self).cursor_state(),
            r.cursor_blinking() == old(self).cursor_blinking(),
            *final(self) == *final(r),
    {
        self.display = state;
        self
    }

    /// Sets the cursor `On` or `Off`.
    ///
    /// Default is `Off`.
    ///
    /// **Note:** This will not change cursor move direction or any other settings.
    pub fn set_cursor(&mut self, state: CursorState) -> (r: &mut Self)
        ensures
            r.display_state() == old(self).display_state(),
            r.cursor_state() == state,
            r.cursor_blinking() == old(self).cursor_blinking(),
            *final(self) == *final(r),
    {
        self.cursor = state;
        self
    }

    /// Sets the blinking of the cursor `On` of `Off`.
    ///
    /// Default is `Off`.
    pub fn set_cursor_blinking(&mut self, blinking: CursorBlinking) -> (r: &mut Self)
        ensures
            r.display_state() == old(self).display_state(),
            r.cursor_state() == old(self).cursor_state(),
            r.cursor_blinking() == blinking,
            *final(self) == *final(r),
    {
        self.blinking = blinking;
        self
    }

    /// Serializes the settings into the display control instruction byte.
    pub fn build_command(&self) -> (r: u8)
        ensures
            r == self.spec_command(),
    {
        let mut cmd = DISPLAY_CONTROL;
        cmd = cmd | self.display.bits();
        cmd = cmd | self.cursor.bits();
        cmd = cmd | self.blinking.bits();
        cmd
    }
}

impl Default for DisplayControlBuilder {
    /// Makes a new `DisplayControlBuilder` with the display `On`, the cursor `Off` and
    /// cursor blinking `Off`.
    fn default() -> (r: Self)
        ensures
            r.display_state() == DisplayState::On,
            r.cursor_state() == CursorState::Off,
            r.cursor_blinking() == CursorBlinking::Off,
    {
        DisplayControlBuilder {
            display: DisplayState::On,
            cursor: CursorState::Off,
            blinking: CursorBlinking::Off,
        }
    }
}

/// Each option can be read back from its own bit of the instruction: the opcode bit is
/// always set, the "off" values contribute nothing and the upper nibble stays clear.
pub proof fn lemma_display_control_bits(
    display: DisplayState,
    cursor: CursorState,
    blinking: CursorBlinking,
)
    ensures
        ({
            let cmd = display_control_command(display, cursor, blinking);
            &&& cmd & DISPLAY_CONTROL == DISPLAY_CONTROL
            &&& (cmd & DISPLAY_ON == DISPLAY_ON) == (display == DisplayState::On)
            &&& (cmd & CURSOR_ON == CURSOR_ON) == (cursor == CursorState::On)
            &&& (cmd & CURSOR_BLINKING_ON == CURSOR_BLINKING_ON) == (blinking
                == CursorBlinking::On)
            &&& cmd & 0xf0 == 0
        }),
{
    let x = display.spec_bits();
    let y = cursor.spec_bits();
    let z = blinking.spec_bits();
    assert(x == 0 || x == 4);
    assert(y == 0 || y == 2);
    assert(z == 0 || z == 1);
    assert(((8u8 | x | y | z) & 8u8 == 8u8) && ((8u8 | x | y | z) & 4u8 == 4u8 <==> x == 4u8) && (
    (8u8 | x | y | z) & 2u8 == 2u8 <==> y == 2u8) && ((8u8 | x | y | z) & 1u8 == 1u8 <==> z == 1u8)
        && (8u8 | x | y | z) & 0xf0u8 == 0u8) by (bit_vector)
        requires
            x == 0 || x == 4,
            y == 0 || y == 2,
            z == 0 || z == 1,
    ;
}

/// A builder with the default settings always serializes to the same documented byte.
pub proof fn lemma_default_command(builder: DisplayControlBuilder)
    requires
        builder.display_state() == DisplayState::On,
        builder.cursor_state() == CursorState::Off,
        builder.cursor_blinking() == CursorBlinking::Off,
    ensures
        builder.spec_command() == 0b0000_1100,
{
    assert(8u8 | 4u8 | 0u8 | 0u8 == 12u8) by (bit_vector);
}

} // verus!
