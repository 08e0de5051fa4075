use clerk::{DisplayShift, EntryModeBuilder, MoveDirection};

const ENTRY_MODE_FLAG: u8 = 0b0000_0100;
const MOVE_DIRECTION_FLAG: u8 = 0b0000_0010;
const DISPLAY_SHIFT_FLAG: u8 = 0b0000_0001;

fn has_bit(value: u8, bitmask: u8) -> bool {
    value & bitmask == bitmask
}

#[test]
fn entry_mode_flag() {
    let b = EntryModeBuilder::default();
    let cmd = b.build_command();

    assert!(has_bit(cmd, ENTRY_MODE_FLAG));
}

#[test]
fn default_move_direction() {
    let b = EntryModeBuilder::default();
    let cmd = b.build_command();

    assert!(has_bit(cmd, MOVE_DIRECTION_FLAG));
}

#[test]
fn set_move_direction() {
    let mut b = EntryModeBuilder::default();

    let cmd = b.build_command();
    assert!(has_bit(cmd, MOVE_DIRECTION_FLAG));

    b.set_move_direction(MoveDirection::Decrement);

    let cmd = b.build_command();
    assert_eq!(has_bit(cmd, MOVE_DIRECTION_FLAG), false);
}

#[test]
fn default_display_shift() {
    let b = EntryModeBuilder::default();
    let cmd = b.build_command();

    assert_eq!(has_bit(cmd, DISPLAY_SHIFT_FLAG), false);
}

#[test]
fn set_display_shift() {
    let mut b = EntryModeBuilder::default();

    let cmd = b.build_command();
    assert_eq!(has_bit(cmd, DISPLAY_SHIFT_FLAG), false);

    b.set_display_shift(DisplayShift::On);

    let cmd = b.build_command();
    assert!(has_bit(cmd, DISPLAY_SHIFT_FLAG));
}

#[test]
fn default_entry_mode_byte() {
    assert_eq!(EntryModeBuilder::default().build_command(), 0b0000_0110);
}

#[test]
fn decrement_with_display_shift_byte() {
    let mut b = EntryModeBuilder::default();
    b.set_move_direction(MoveDirection::Decrement)
        .set_display_shift(DisplayShift::On);
    assert_eq!(b.build_command(), 0b0000_0101);
}
