//! The lines of a display and where each starts in display data RAM.
use crate::address::{Address, Overflow};
use vstd::prelude::*;

verus! {

/// Address where the first line of a display starts.
pub const FIRST_LINE_ADDRESS: u8 = 0x00;

/// Address where the second line of a display starts.
pub const SECOND_LINE_ADDRESS: u8 = 0x40;

/// This trait is used to specify the start address of the display data RAM and of each line.
pub trait Home {
    /// The address the first line starts at, where seeks from `Home` count from.
    spec fn spec_home() -> u8;

    /// The address the given line starts at.
    spec fn spec_line_address(&self) -> u8;

    /// The address the first line starts at, where seeks from `Home` count from.
    fn home() -> (r: u8)
        ensures
            r == Self::spec_home(),
    ;

    /// The address the given line starts at.
    fn line_address(&self) -> (r: u8)
        ensures
            r == self.spec_line_address(),
    ;
}

/// Enumeration of default lines.
#[derive(Clone, Copy, Debug, PartialEq, Eq, Structural)]
pub enum DefaultLines {
    One,
    Two,
}

impl Home for DefaultLines {
    open spec fn spec_home() -> u8 {
        FIRST_LINE_ADDRESS
    }

    open spec fn spec_line_address(&self) -> u8 {
        match self {
            DefaultLines::One => FIRST_LINE_ADDRESS,
            DefaultLines::Two => SECOND_LINE_ADDRESS,
        }
    }

    fn home() -> (r: u8) {
        FIRST_LINE_ADDRESS
    }

    fn line_address(&self) -> (r: u8) {
        match self {
            DefaultLines::One => FIRST_LINE_ADDRESS,
            DefaultLines::Two => SECOND_LINE_ADDRESS,
        }
    }
}

impl<T: Overflow> From<DefaultLines> for Address<T> {
    /// Returns the hardware address of the line.
    fn from(line: DefaultLines) -> (r: Self) {
        Address::from_raw(line.line_address())
    }
}

impl<T: Overflow> vstd::std_specs::convert::FromSpecImpl<DefaultLines> for Address<T> {
    open spec fn obeys_from_spec() -> bool {
        true
    }

    open spec fn from_spec(line: DefaultLines) -> Self {
        Address::spec_new(Address::<T>::spec_from_raw(line.spec_line_address()))
    }
}

} // verus!
