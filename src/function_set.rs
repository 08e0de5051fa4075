//! The function set instruction: bus width, number of lines and character font.
use vstd::prelude::*;

verus! {

/// Opcode bit of the function set instruction (bit 5).
pub const FUNCTION_SET: u8 = 0b0010_0000;

/// Bit 4: the controller talks over eight data lines.
pub const INTERFACE_DATA_LENGTH_8BIT: u8 = 0b0001_0000;

/// Bit 3: two display lines.
pub const DISPLAY_LINES_NUMBER_2: u8 = 0b0000_1000;

/// Bit 2: 5x10 dots characters.
pub const CHARACTER_FONT_5_10_DOTS: u8 = 0b0000_0100;

/// Enumeration of possible interface data lengths.
#[derive(Clone, Copy, Debug, PartialEq, Eq, Structural)]
pub enum DataLength {
    /// 4-bit mode
    FourBit,
    /// 8-bit mode
    EightBit,
}

impl DataLength {
    /// The bits this option contributes to the instruction.
    pub open spec fn spec_bits(self) -> u8 {
        match self {
            DataLength::FourBit => 0,
            DataLength::EightBit => INTERFACE_DATA_LENGTH_8BIT,
        }
    }

    /// The bits this option contributes to the instruction.
    pub fn bits(self) -> (r: u8)
        ensures
            r == self.spec_bits(),
    {
        match self {
            DataLength::FourBit => 0,
            DataLength::EightBit => INTERFACE_DATA_LENGTH_8BIT,
        }
    }
}

/// Enumeration to set display line number.
#[derive(Clone, Copy, Debug, PartialEq, Eq, Structural)]
pub enum LineNumber {
    One,
    Two,
}

impl LineNumber {
    /// The bits this option contributes to the instruction.
    pub open spec fn spec_bits(self) -> u8 {
        match self {
            LineNumber::One => 0,
            LineNumber::Two => DISPLAY_LINES_NUMBER_2,
        }
    }

    /// The bits this option contributes to the instruction.
    pub fn bits(self) -> (r: u8)
        ensures
            r == self.spec_bits(),
    {
        match self {
            LineNumber::One => 0,
            LineNumber::Two => DISPLAY_LINES_NUMBER_2,
        }
    }
}

/// Enumeration to set display character font.
#[derive(Clone, Copy, Debug, PartialEq, Eq, Structural)]
pub enum CharacterFont {
    Dots5By10,
    Dots5By8,
}

impl CharacterFont {
    /// The bits this option contributes to the instruction.
    pub open spec fn spec_bits(self) -> u8 {
        match self {
            CharacterFont::Dots5By10 => CHARACTER_FONT_5_10_DOTS,
            CharacterFont::Dots5By8 => 0,
        }
    }

    /// The bits this option contributes to the instruction.
    pub fn bits(self) -> (r: u8)
        ensures
            r == self.spec_bits(),
    {
        match self {
            CharacterFont::Dots5By10 => CHARACTER_FONT_5_10_DOTS,
            CharacterFont::Dots5By8 => 0,
        }
    }
}

/// The function set instruction for the given options: the opcode bit OR one flag per option.
pub open spec fn function_set_command(
    data_length: DataLength,
    line_number: LineNumber,
    character_font: CharacterFont,
) -> u8 {
    FUNCTION_SET | data_length.spec_bits() | line_number.spec_bits() | character_font.spec_bits()
}

/// A struct for creating display function settings.
pub struct FunctionSetBuilder {
    data_length: DataLength,
    line_number: LineNumber,
    character_font: CharacterFont,
}

impl FunctionSetBuilder {
    /// The configured interface data length.
    pub closed spec fn data_length(&self) -> DataLength {
        self.data_length
    }

    /// The configured number of lines.
    pub closed spec fn line_number(&self) -> LineNumber {
        self.line_number
    }

    /// The configured character font.
    pub closed spec fn character_font(&self) -> CharacterFont {
        self.character_font
    }

    /// The instruction byte this builder stands for.
    pub open spec fn spec_command(&self) -> u8 {
        function_set_command(self.data_length(), self.line_number(), self.character_font())
    }

    /// Sets the interface data length.
    pub fn set_data_length(&mut self, data_length: DataLength) -> (r: &mut Self)
        ensures
            r.data_length() == data_length,
            r.line_number() == old(self).line_number(),
            r.character_font() == old(self).character_font(),
            *final(self) == *final(r),
    {
        self.data_length = data_length;
        self
    }

    /// Sets the number of display lines.
    pub fn set_line_number(&mut self, line_number: LineNumber) -> (r: &mut Self)
        ensures
            r.data_length() == old(self).data_length(),
            r.line_number() == line_number,
            r.character_font() == old(self).character_font(),
            *final(self) == *final(r),
    {
        self.line_number = line_number;
        self
    }

    /// Sets the character font.
    pub fn set_character_font(&mut self, character_font: CharacterFont) -> (r: &mut Self)
        ensures
            r.data_length() == old(self).data_length(),
            r.line_number() == old(self).line_number(),
            r.character_font() == character_font,
            *final(self) == *final(r),
    {
        self.character_font = character_font;
        self
    }

    /// Serializes the settings into the function set instruction byte.
    pub fn build_command(&self) -> (r: u8)
        ensures
            r == self.spec_command(),
    {
        let mut cmd = FUNCTION_SET;
        cmd = cmd | self.data_length.bits();
        cmd = cmd | self.line_number.bits();
        cmd = cmd | self.character_font.bits();
        cmd
    }
}

impl Default for FunctionSetBuilder {
    /// Makes a new `FunctionSetBuilder` for the 4-bit interface, one line and the 5x8 dots
    /// font.
    fn default() -> (r: Self)
        ensures
            r.data_length() == DataLength::FourBit,
            r.line_number() == LineNumber::One,
            r.character_font() == CharacterFont::Dots5By8,
    {
        FunctionSetBuilder {
            data_length: DataLength::FourBit,
            line_number: LineNumber::One,
            character_font: CharacterFont::Dots5By8,
        }
    }
}

/// Each option can be read back from its own bit of the instruction: the opcode bit is
/// always set, the "off" values contribute nothing and the other bits stay clear.
pub proof fn lemma_function_set_bits(
    data_length: DataLength,
    line_number: LineNumber,
    character_font: CharacterFont,
)
    ensures
        ({
            let cmd = function_set_command(data_length, line_number, character_font);
            &&& cmd & FUNCTION_SET == FUNCTION_SET
            &&& (cmd & INTERFACE_DATA_LENGTH_8BIT == INTERFACE_DATA_LENGTH_8BIT) == (data_length
                == DataLength::EightBit)
            &&& (cmd & DISPLAY_LINES_NUMBER_2 == DISPLAY_LINES_NUMBER_2) == (line_number
                == LineNumber::Two)
            &&& (cmd & CHARACTER_FONT_5_10_DOTS == CHARACTER_FONT_5_10_DOTS) == (character_font
                == CharacterFont::Dots5By10)
            &&& cmd & 0xc3 == 0
        }),
{
    let x = data_length.spec_bits();
    let y = line_number.spec_bits();
    let z = character_font.spec_bits();
    assert(((32u8 | x | y | z) & 32u8 == 32u8) && ((32u8 | x | y | z) & 16u8 == 16u8 <==> x == 16u8)
        && ((32u8 | x | y | z) & 8u8 == 8u8 <==> y == 8u8) && ((32u8 | x | y | z) & 4u8 == 4u8
        <==> z == 4u8) && (32u8 | x | y | z) & 0xc3u8 == 0u8) by (bit_vector)
        requires
            x == 0 || x == 16,
            y == 0 || y == 8,
            z == 0 || z == 4,
    ;
}

/// A builder with the default settings always serializes to the same documented byte.
pub proof fn lemma_default_command(builder: FunctionSetBuilder)
    requires
        builder.data_length() == DataLength::FourBit,
        builder.line_number() == LineNumber::One,
        builder.character_font() == CharacterFont::Dots5By8,
    ensures
        builder.spec_command() == 0b0010_0000,
{
    assert(32u8 | 0u8 | 0u8 | 0u8 == 32u8) by (bit_vector);
}

} // verus!
