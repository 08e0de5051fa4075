use std::cell::RefCell;
use std::collections::VecDeque;
use std::rc::Rc;

use clerk::{
    DataPins4Lines, DataPins8Lines, DefaultLines, Delay, Direction, Display, DisplayControlBuilder,
    DisplayHardwareLayer, EntryModeBuilder, FunctionSetBuilder, Level, ParallelConnection, Pins,
    Receive, ReadMode, SeekCgRamFrom, SeekFrom, Send, ShiftTo, WriteMode,
};

pub struct PinMock {
    levels: Vec<Level>,
    directions: Vec<Direction>,
    values: VecDeque<u8>,
}

impl Default for PinMock {
    fn default() -> Self {
        PinMock {
            values: VecDeque::new(),
            levels: vec![],
            directions: vec![],
        }
    }
}

impl PinMock {
    pub fn set_value(&mut self, value: u8) {
        self.values.push_back(value)
    }
}

impl DisplayHardwareLayer for PinMock {
    fn init(&mut self) {}

    fn cleanup(&mut self) {}

    fn set_direction(&mut self, direction: Direction) {
        self.directions.push(direction);
    }

    fn set_level(&mut self, level: Level) {
        self.levels.push(level);
    }

    fn get_value(&mut self) -> u8 {
        match self.values.pop_front() {
            Some(v) => v,
            None => panic!("No return value specified for current test."),
        }
    }
}

pub struct CustomDelayMock;

impl Delay for CustomDelayMock {
    fn delay_ns(&mut self, _: u16) {}

    fn delay_us(&mut self, _: u16) {}

    fn delay_ms(&mut self, _: u16) {}
}

type MockPins = Pins<PinMock, PinMock, PinMock, DataPins4Lines<PinMock, PinMock, PinMock, PinMock>>;
type MockConnection = ParallelConnection<
    PinMock,
    PinMock,
    PinMock,
    DataPins4Lines<PinMock, PinMock, PinMock, PinMock>,
    CustomDelayMock,
>;

fn mock_pins() -> MockPins {
    Pins {
        register_select: PinMock::default(),
        read: PinMock::default(),
        enable: PinMock::default(),
        data: DataPins4Lines {
            data4: PinMock::default(),
            data5: PinMock::default(),
            data6: PinMock::default(),
            data7: PinMock::default(),
        },
    }
}

fn from_pins(pins: MockPins) -> Display<MockConnection, DefaultLines> {
    Display::new(pins.into_connection(CustomDelayMock))
}

fn setup_display() -> Display<MockConnection, DefaultLines> {
    from_pins(mock_pins())
}

fn get_pins(lcd: Display<MockConnection, DefaultLines>) -> MockPins {
    lcd.get_connection().release().0
}

#[test]
fn test_init() {
    let mut lcd = setup_display();

    lcd.init(&FunctionSetBuilder::default());

    let pins = get_pins(lcd);
    {
        // check initialization
        assert_eq!(pins.register_select.directions[..], [Direction::Out]);
        assert_eq!(pins.read.directions[..], [Direction::Out]);
        assert_eq!(pins.enable.directions[..], [Direction::Out]);
    }

    let outp = flat_pins(pins);

    assert_eq!(outp[0], to_level_slice(0x33));
    assert_eq!(outp[1], to_level_slice(0x32));
    assert_eq!(outp[2], to_level_slice(0x20));
    assert_eq!(outp[3], to_level_slice(0x01));
}

#[test]
fn test_set_entry_mode() {
    let mut lcd = setup_display();

    lcd.set_entry_mode(&EntryModeBuilder::default());

    let outp = flat_pins(get_pins(lcd));

    assert_eq!(outp[0], to_level_slice(0b0000_0110));
}

#[test]
fn integration_test_test_set_display_control() {
    let mut lcd = setup_display();

    lcd.set_display_control(&DisplayControlBuilder::default());

    let outp = flat_pins(get_pins(lcd));

    assert_eq!(outp[0], to_level_slice(0b0000_1100));
}

#[test]
fn integration_test_test_shift_cursor_left() {
    let mut lcd = setup_display();

    lcd.shift_cursor(ShiftTo::Left(1));

    let outp = flat_pins(get_pins(lcd));

    assert_eq!(outp[0], to_level_slice(0b0001_0000));
}

#[test]
fn integration_test_test_shift_cursor_left_with_zero_offset() {
    let mut lcd = setup_display();

    lcd.shift_cursor(ShiftTo::Left(0));

    let outp = flat_pins(get_pins(lcd));

    assert_eq!(outp.len(), 0);
}

#[test]
fn integration_test_test_shift_cursor_right() {
    let mut lcd = setup_display();

    lcd.shift_cursor(ShiftTo::Right(1));

    let outp = flat_pins(get_pins(lcd));

    assert_eq!(outp[0], to_level_slice(0b0001_0100));
}

#[test]
fn integration_test_test_shift_cursor_right_multiple() {
    let mut lcd = setup_display();

    lcd.shift_cursor(ShiftTo::Right(2));
    let outp = flat_pins(get_pins(lcd));

    assert_eq!(outp[0], to_level_slice(0b0001_0100));
    assert_eq!(outp[1], to_level_slice(0b0001_0100));
}

#[test]
fn integration_test_test_shift_cursor_right_with_zero_offset() {
    let mut lcd = setup_display();

    lcd.shift_cursor(ShiftTo::Right(0));

    let outp = flat_pins(get_pins(lcd));

    assert_eq!(outp.len(), 0);
}

#[test]
fn integration_test_test_shift_left() {
    let mut lcd = setup_display();

    lcd.shift(ShiftTo::Left(1));

    let outp = flat_pins(get_pins(lcd));

    assert_eq!(outp[0], to_level_slice(0b0001_1000));
}

#[test]
fn integration_test_test_shift_right() {
    let mut lcd = setup_display();

    lcd.shift(ShiftTo::Right(1));

    let outp = flat_pins(get_pins(lcd));

    assert_eq!(outp[0], to_level_slice(0b0001_1100));
}

#[test]
fn integration_test_test_clear() {
    let mut lcd = setup_display();

    lcd.clear();

    let outp = flat_pins(get_pins(lcd));

    assert_eq!(outp[0], to_level_slice(0x01));
}

#[test]
fn integration_test_test_seek_from_home() {
    let mut lcd = setup_display();

    lcd.seek(SeekFrom::Home(3));

    let outp = flat_pins(get_pins(lcd));

    assert_eq!(outp[0], to_level_slice(0b1000_0011));
}

#[test]
fn integration_test_test_seek_from_current() {
    let mut lcd = setup_display();

    lcd.seek(SeekFrom::Home(2));
    lcd.seek(SeekFrom::Current(1));

    let outp = flat_pins(get_pins(lcd));

    assert_eq!(outp[0], to_level_slice(0b1000_0010));
    assert_eq!(outp[1], to_level_slice(0b1000_0011));
}

#[test]
fn integration_test_test_seek_from_line() {
    let mut lcd = setup_display();

    lcd.seek(SeekFrom::Line {
        line: DefaultLines::Two,
        offset: 3,
    });

    let outp = flat_pins(get_pins(lcd));

    assert_eq!(outp[0], to_level_slice(0b1100_0011));
}

#[test]
fn test_seek_cgram_from_home() {
    let lcd = setup_display();

    let lcd = lcd.set_cgram_address(3);

    let outp = flat_pins(lcd.get_connection().release().0);

    assert_eq!(outp[0], to_level_slice(0b0100_0011));
}

#[test]
fn integration_test_test_seek_cgram_from_current() {
    let lcd = setup_display();

    let mut lcd = lcd.set_cgram_address(2);
    lcd.seek(SeekCgRamFrom::Current(1));

    let outp = flat_pins(lcd.get_connection().release().0);

    assert_eq!(outp[0], to_level_slice(0b0100_0010));
    assert_eq!(outp[1], to_level_slice(0b0100_0011));
}

#[test]
fn integration_test_test_write() {
    let mut lcd = setup_display();

    lcd.write(123);

    let pins = get_pins(lcd);

    {
        assert_eq!(pins.read.levels[..], [Level::Low]);
        assert_eq!(pins.register_select.levels[..], [Level::High]);
    }

    let outp = flat_pins(pins);
    assert_eq!(outp[0], to_level_slice(123));
}

#[test]
fn integration_test_test_write_updates_address_counter() {
    let mut lcd = setup_display();

    lcd.seek(SeekFrom::Home(0));
    lcd.write(12);
    lcd.write(34);
    lcd.seek(SeekFrom::Current(0));

    let outp = flat_pins(get_pins(lcd));
    assert_eq!(outp[3], to_level_slice(0b1000_0010));
}

#[test]
fn integration_test_test_write_message() {
    let mut lcd = setup_display();

    lcd.write_message("Hi");

    let outp = flat_pins(get_pins(lcd));
    assert_eq!(outp[0], to_level_slice(b'H'));
    assert_eq!(outp[1], to_level_slice(b'i'));
}

#[test]
fn integration_test_test_write_message_increments_address_counter() {
    let mut lcd = setup_display();

    lcd.write_message("Hi");
    lcd.seek(SeekFrom::Current(0));

    let outp = flat_pins(get_pins(lcd));
    assert_eq!(outp[2], to_level_slice(0b1000_0010));
}

#[test]
fn integration_test_test_read() {
    let mut pins = mock_pins();

    let expected = 42;
    set_read_value(&mut pins, expected);

    let mut lcd = from_pins(pins);

    let input = lcd.read_byte();

    assert_eq!(input, expected);
}

#[test]
fn integration_test_test_read_increments_address_counter() {
    let mut pins = mock_pins();

    set_read_value(&mut pins, 4);
    set_read_value(&mut pins, 2);

    let mut lcd = from_pins(pins);

    lcd.read_byte();
    lcd.seek(SeekFrom::Current(0));

    lcd.read_byte();
    lcd.seek(SeekFrom::Current(0));

    let outp = flat_pins(get_pins(lcd));
    assert_eq!(outp[0], to_level_slice(0b1000_0001));
    assert_eq!(outp[1], to_level_slice(0b1000_0010));
}

#[test]
fn read_busy_flag_through_pins() {
    let mut pins = mock_pins();
    set_read_value(&mut pins, 0b1000_0111);

    let mut lcd = from_pins(pins);
    assert_eq!(lcd.read_busy_flag(), (true, 7));

    let pins = get_pins(lcd);
    // register select low selects the busy flag; read/write is high while reading
    assert_eq!(pins.register_select.levels[..], [Level::Low]);
    assert_eq!(pins.read.levels[..], [Level::High, Level::Low]);
    assert_eq!(
        pins.data.data4.directions[..],
        [Direction::In, Direction::Out]
    );
}

fn set_read_value(pins: &mut MockPins, value: u8) {
    pins.data.data4.set_value((value & 0b0001_0000) >> 4);
    pins.data.data5.set_value((value & 0b0010_0000) >> 5);
    pins.data.data6.set_value((value & 0b0100_0000) >> 6);
    pins.data.data7.set_value((value & 0b1000_0000) >> 7);

    pins.data.data4.set_value(value & 0b0000_0001);
    pins.data.data5.set_value((value & 0b0000_0010) >> 1);
    pins.data.data6.set_value((value & 0b0000_0100) >> 2);
    pins.data.data7.set_value((value & 0b0000_1000) >> 3);
}

/// Groups the levels driven on the data lines into bytes, most significant bit first.
fn flat_pins(pins: MockPins) -> Vec<Vec<Level>> {
    let d4 = pins.data.data4.levels;
    let d5 = pins.data.data5.levels;
    let d6 = pins.data.data6.levels;
    let d7 = pins.data.data7.levels;

    let mut nibbles: Vec<Vec<Level>> = vec![];
    for i in 0..d4.len() {
        nibbles.push(vec![d7[i], d6[i], d5[i], d4[i]]);
    }

    let mut r = vec![];
    for pair in nibbles.chunks(2) {
        let mut byte = vec![];
        for nibble in pair {
            byte.extend(nibble.iter().cloned());
        }
        r.push(byte);
    }
    r
}

fn to_level_slice(v: u8) -> Vec<Level> {
    let mut l: Vec<Level> = Vec::new();

    for i in (0..8).rev() {
        if (v & (1 << i)) > 0 {
            l.push(Level::High);
        } else {
            l.push(Level::Low);
        }
    }

    l
}

/// A data pin of a loopback harness: what was driven on it is what it reads back, in order.
#[derive(Default)]
struct LoopbackPin {
    driven: VecDeque<Level>,
}

impl DisplayHardwareLayer for LoopbackPin {
    fn init(&mut self) {}

    fn cleanup(&mut self) {}

    fn set_direction(&mut self, _: Direction) {}

    fn set_level(&mut self, level: Level) {
        self.driven.push_back(level);
    }

    fn get_value(&mut self) -> u8 {
        match self.driven.pop_front() {
            Some(Level::High) => 1,
            _ => 0,
        }
    }
}

#[test]
fn nibble_round_trip_through_loopback() {
    for byte in 0..=255u8 {
        let pins = Pins {
            register_select: PinMock::default(),
            read: PinMock::default(),
            enable: PinMock::default(),
            data: DataPins4Lines {
                data4: LoopbackPin::default(),
                data5: LoopbackPin::default(),
                data6: LoopbackPin::default(),
                data7: LoopbackPin::default(),
            },
        };
        let mut connection = pins.into_connection(CustomDelayMock);
        connection.send(WriteMode::Data(byte));
        assert_eq!(connection.receive(ReadMode::Data), byte);
    }
}

#[derive(Clone, Debug, PartialEq)]
enum Step {
    Pin(&'static str, Level),
    Ns(u16),
    Us(u16),
}

struct RecordingPin {
    name: &'static str,
    log: Rc<RefCell<Vec<Step>>>,
}

impl DisplayHardwareLayer for RecordingPin {
    fn init(&mut self) {}

    fn cleanup(&mut self) {}

    fn set_direction(&mut self, _: Direction) {}

    fn set_level(&mut self, level: Level) {
        self.log.borrow_mut().push(Step::Pin(self.name, level));
    }

    fn get_value(&mut self) -> u8 {
        0
    }
}

struct RecordingDelay {
    log: Rc<RefCell<Vec<Step>>>,
}

impl Delay for RecordingDelay {
    fn delay_ns(&mut self, ns: u16) {
        self.log.borrow_mut().push(Step::Ns(ns));
    }

    fn delay_us(&mut self, us: u16) {
        self.log.borrow_mut().push(Step::Us(us));
    }

    fn delay_ms(&mut self, _: u16) {}
}

#[test]
fn send_orders_control_lines_and_timing() {
    let log = Rc::new(RefCell::new(vec![]));
    let pin = |name| RecordingPin {
        name,
        log: log.clone(),
    };
    let pins = Pins {
        register_select: pin("rs"),
        read: pin("rw"),
        enable: pin("e"),
        data: DataPins4Lines {
            data4: pin("d4"),
            data5: pin("d5"),
            data6: pin("d6"),
            data7: pin("d7"),
        },
    };
    let mut connection = pins.into_connection(RecordingDelay { log: log.clone() });
    connection.send(WriteMode::Data(0b1001_0110));

    let (high, low) = (Level::High, Level::Low);
    let nibble = |d4, d5, d6, d7| {
        vec![
            Step::Ns(60),
            Step::Pin("e", high),
            Step::Pin("d4", d4),
            Step::Pin("d5", d5),
            Step::Pin("d6", d6),
            Step::Pin("d7", d7),
            Step::Ns(450),
            Step::Pin("e", low),
            Step::Ns(20),
        ]
    };
    let mut expected = vec![Step::Pin("rw", low), Step::Pin("rs", high)];
    expected.extend(nibble(high, low, low, high));
    expected.extend(nibble(low, high, high, low));
    expected.push(Step::Us(37));
    assert_eq!(*log.borrow(), expected);
}

#[test]
fn eight_bit_mode_sends_and_reads_whole_bytes() {
    let pins = Pins {
        register_select: PinMock::default(),
        read: PinMock::default(),
        enable: PinMock::default(),
        data: DataPins8Lines {
            data0: LoopbackPin::default(),
            data1: LoopbackPin::default(),
            data2: LoopbackPin::default(),
            data3: LoopbackPin::default(),
            data4: LoopbackPin::default(),
            data5: LoopbackPin::default(),
            data6: LoopbackPin::default(),
            data7: LoopbackPin::default(),
        },
    };
    let mut connection = pins.into_connection(CustomDelayMock);
    for byte in [0u8, 0b1010_0101, 0xff, 0x38] {
        connection.send(WriteMode::Command(byte));
        assert_eq!(connection.receive(ReadMode::BusyFlag), byte);
    }
    let (pins, _) = connection.release();
    // one enable pulse per transfer: four sends and four reads
    assert_eq!(pins.enable.levels.len(), 16);
    assert_eq!(pins.register_select.levels, vec![Level::Low; 8]);
}

#[test]
fn eight_bit_mode_drives_each_bit_on_its_own_line() {
    let mut connection = Pins {
        register_select: PinMock::default(),
        read: PinMock::default(),
        enable: PinMock::default(),
        data: DataPins8Lines {
            data0: PinMock::default(),
            data1: PinMock::default(),
            data2: PinMock::default(),
            data3: PinMock::default(),
            data4: PinMock::default(),
            data5: PinMock::default(),
            data6: PinMock::default(),
            data7: PinMock::default(),
        },
    }
    .into_connection(CustomDelayMock);
    connection.send(WriteMode::Data(0b1000_0011));
    let (pins, _) = connection.release();
    let d = pins.data;
    assert_eq!(d.data0.levels, vec![Level::High]);
    assert_eq!(d.data1.levels, vec![Level::High]);
    assert_eq!(d.data2.levels, vec![Level::Low]);
    assert_eq!(d.data6.levels, vec![Level::Low]);
    assert_eq!(d.data7.levels, vec![Level::High]);
    assert_eq!(pins.register_select.levels, vec![Level::High]);
}
