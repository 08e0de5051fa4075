//! Clerk: a hardware agnostic driver for HD44780 compliant character LCD controllers.
//!
//! The crate is split into an address model (`address`), the lines of a display (`lines`),
//! the command builders (`function_set`, `entry_mode`, `display_control`), the bus
//! transaction layer (`hal`) and the display engine (`display`).
pub mod address;
pub mod display;
pub mod display_control;
pub mod entry_mode;
pub mod function_set;
pub mod hal;
pub mod lines;

pub use address::{Address, CgRam, DdRam, Overflow};
pub use display::{DdRamDisplay as Display, SeekCgRamFrom, SeekFrom, SetFrom, ShiftTo};
pub use display_control::{CursorBlinking, CursorState, DisplayControlBuilder, DisplayState};
pub use entry_mode::{DisplayShift, EntryModeBuilder, MoveDirection};
pub use function_set::{CharacterFont, DataLength, FunctionSetBuilder, LineNumber};
pub use hal::{
    BusEvent, Connection, DataLines, DataPins4Lines, DataPins8Lines, Delay, Direction,
    DisplayHardwareLayer, Init, Level, Line, ParallelConnection, PinEvent, Pins, ReadMode, Receive,
    ReceiveRaw, Send, SendInit, SendRaw, Transaction, Wait, WriteMode,
};
pub use lines::{DefaultLines, Home};
