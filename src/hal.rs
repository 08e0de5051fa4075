//! The bus transaction layer: the capabilities a display connection offers, and the parallel
//! connection that turns instruction and data bytes into timed transitions on the
//! controller's register select, read/write, enable and data lines.
use vstd::prelude::*;

verus! {

/// The time (ns) between register select (RS) and read/write (R/W) to enable signal (E).
pub const ADDRESS_SETUP_TIME: u16 = 60;

/// The duration (ns) the enable signal is set to `High`.
pub const ENABLE_PULSE_WIDTH: u16 = 450;

/// The duration (ns) the data pins will be set after the enable signal was dropped.
pub const DATA_HOLD_TIME: u16 = 20;

/// The maximum execution time (us) of instruction commands.
pub const COMMAND_EXECUTION_TIME: u16 = 37;

/// The time (ms) the controller needs after power on before it accepts instructions.
pub const POWER_ON_TIME: u16 = 40;

/// The time (ms) waited after a synchronisation instruction that the controller, possibly
/// still in 8-bit mode, executes as a whole instruction.
pub const SYNC_INSTRUCTION_TIME: u16 = 5;

/// The time (us) waited after the second half of a synchronisation instruction.
pub const SYNC_EXECUTION_TIME: u16 = 120;

/// First instruction of the power-on sequence that brings the controller into 4-bit mode.
pub const FIRST_4BIT_INIT_INSTRUCTION: u8 = 0x33;

/// Second instruction of the power-on sequence that brings the controller into 4-bit mode.
pub const SECOND_4BIT_INIT_INSTRUCTION: u8 = 0x32;

/// Enumeration possible write operations.
#[derive(Clone, Copy, Debug, PartialEq, Eq, Structural)]
pub enum WriteMode {
    Command(u8),
    Data(u8),
}

/// Enumeration possible read operations.
#[derive(Clone, Copy, Debug, PartialEq, Eq, Structural)]
pub enum ReadMode {
    Data,
    BusyFlag,
}

/// Enumeration of possible data directions of a pin.
#[derive(Clone, Copy, Debug, PartialEq, Eq, Structural)]
pub enum Direction {
    In,
    Out,
}

/// Enumeration of possible levels of a pin.
#[derive(Clone, Copy, Debug, PartialEq, Eq, Structural)]
pub enum Level {
    Low,
    High,
}

impl WriteMode {
    /// The register select level of the transfer: low for instructions, high for data.
    pub open spec fn spec_register_select(self) -> Level {
        match self {
            WriteMode::Command(_) => Level::Low,
            WriteMode::Data(_) => Level::High,
        }
    }

    /// The byte that is transferred.
    pub open spec fn spec_value(self) -> u8 {
        match self {
            WriteMode::Command(value) => value,
            WriteMode::Data(value) => value,
        }
    }

    /// Splits the operation into its register select level and its byte.
    pub fn level_and_value(self) -> (r: (Level, u8))
        ensures
            r == (self.spec_register_select(), self.spec_value()),
    {
        match self {
            WriteMode::Command(value) => (Level::Low, value),
            WriteMode::Data(value) => (Level::High, value),
        }
    }
}

impl From<WriteMode> for (Level, u8) {
    fn from(mode: WriteMode) -> (r: (Level, u8)) {
        mode.level_and_value()
    }
}

impl vstd::std_specs::convert::FromSpecImpl<WriteMode> for (Level, u8) {
    open spec fn obeys_from_spec() -> bool {
        true
    }

    open spec fn from_spec(mode: WriteMode) -> (Level, u8) {
        (mode.spec_register_select(), mode.spec_value())
    }
}

impl ReadMode {
    /// The register select level of the transfer: high for data, low for the busy flag.
    pub open spec fn spec_register_select(self) -> Level {
        match self {
            ReadMode::Data => Level::High,
            ReadMode::BusyFlag => Level::Low,
        }
    }

    /// The register select level of the transfer.
    pub fn register_select(self) -> (r: Level)
        ensures
            r == self.spec_register_select(),
    {
        match self {
            ReadMode::Data => Level::High,
            ReadMode::BusyFlag => Level::Low,
        }
    }
}

/// One exchange carried out by a connection.
#[derive(Clone, Copy, Debug, PartialEq, Eq, Structural)]
pub enum Transaction {
    /// The connection was initialized.
    Init,
    /// A synchronisation instruction of the power-on sequence was sent.
    SendInit(WriteMode),
    /// An instruction or a data byte was sent.
    Send(WriteMode),
    /// A byte of the given kind was received, with its value.
    Receive(ReadMode, u8),
    /// A byte was sent over the data lines alone.
    SendByte(u8),
    /// A byte was received over the data lines alone, with its value.
    ReceiveByte(u8),
}

/// What every connection to a display offers to reason about: the transactions it has
/// carried out, and whether its own state is consistent.
pub trait Connection {
    /// Every transaction carried out so far, oldest first.
    ///
    /// The default bodies of these views serve implementations built outside the verifier,
    /// which it never reads; an implementation in verified code gives its own.
    closed spec fn transactions(&self) -> Seq<Transaction> {
        Seq::empty()
    }

    /// The connection's state is consistent; every transaction keeps it so.
    closed spec fn wf(&self) -> bool {
        true
    }

    /// This state is a later state of the same connection as `earlier`.
    closed spec fn continues(&self, earlier: Self) -> bool where Self: Sized {
        true
    }
}

/// This trait is used to provide an initialization implementation for a [`Display`] connection.
///
/// [`Display`]: struct.Display.html
pub trait Init: Connection + Sized {
    /// Initializes the connection.
    fn init(&mut self)
        requires
            old(self).wf(),
        ensures
            final(self).wf(),
            final(self).continues(*old(self)),
            final(self).transactions() == old(self).transactions().push(Transaction::Init),
    ;
}

/// This trait is used to send the power-on synchronisation instructions via a [`Display`]
/// connection, with the longer delays the controller needs before it is configured.
///
/// [`Display`]: struct.Display.html
pub trait SendInit: Connection + Sized {
    /// Sends one synchronisation instruction via the connection.
    fn send_init(&mut self, mode: WriteMode)
        requires
            old(self).wf(),
        ensures
            final(self).wf(),
            final(self).continues(*old(self)),
            final(self).transactions() == old(self).transactions().push(
                Transaction::SendInit(mode),
            ),
    ;
}

/// This trait is used to provide an implementation for sending data via a [`Display`] connection.
///
/// [`Display`]: struct.Display.html
pub trait Send: Connection + Sized {
    /// Sends data via the connection.
    fn send(&mut self, mode: WriteMode)
        requires
            old(self).wf(),
        ensures
            final(self).wf(),
            final(self).continues(*old(self)),
            final(self).transactions() == old(self).transactions().push(Transaction::Send(mode)),
    ;
}

/// This trait is used to provide an implementation for receiving data via a [`Display`] connection.
///
/// [`Display`]: struct.Display.html
pub trait Receive: Connection + Sized {
    /// Receives a byte via the connection.
    fn receive(&mut self, mode: ReadMode) -> (r: u8)
        requires
            old(self).wf(),
        ensures
            final(self).wf(),
            final(self).continues(*old(self)),
            final(self).transactions() == old(self).transactions().push(
                Transaction::Receive(mode, r),
            ),
    ;
}

/// Sends a byte over the data lines, with register select and read/write already driven.
pub trait SendRaw: Connection + Sized {
    fn send_byte(&mut self, byte: u8)
        requires
            old(self).wf(),
        ensures
            final(self).wf(),
            final(self).continues(*old(self)),
            final(self).transactions() == old(self).transactions().push(
                Transaction::SendByte(byte),
            ),
    ;
}

/// Receives a byte over the data lines, with register select and read/write already driven.
pub trait ReceiveRaw: Connection + Sized {
    fn receive_byte(&mut self) -> (r: u8)
        requires
            old(self).wf(),
        ensures
            final(self).wf(),
            final(self).continues(*old(self)),
            final(self).transactions() == old(self).transactions().push(
                Transaction::ReceiveByte(r),
            ),
    ;
}

/// One call made on an I/O pin.
#[derive(Clone, Copy, Debug, PartialEq, Eq, Structural)]
pub enum PinEvent {
    Init,
    Cleanup,
    SetDirection(Direction),
    SetLevel(Level),
    /// The pin was read and found at the given level.
    Sample(Level),
}

/// The level a pin value stands for: zero is low, anything else high.
pub open spec fn level_of_value(value: u8) -> Level {
    if value == 0 {
        Level::Low
    } else {
        Level::High
    }
}

/// The `DisplayHardwareLayer` trait is intended to be implemented by the library user as a thin
/// wrapper around the hardware specific system calls of one I/O pin. Each call is recorded in
/// the pin's history.
pub trait DisplayHardwareLayer {
    /// Every call made on the pin so far, oldest first.
    ///
    /// The default body serves implementations built outside the verifier, which it never
    /// reads; an implementation in verified code gives its own.
    closed spec fn history(&self) -> Seq<PinEvent> {
        Seq::empty()
    }

    /// Initializes an I/O pin.
    fn init(&mut self)
        ensures
            final(self).history() == old(self).history().push(PinEvent::Init),
    ;

    /// Cleanup an I/O pin.
    fn cleanup(&mut self)
        ensures
            final(self).history() == old(self).history().push(PinEvent::Cleanup),
    ;

    /// Sets the data direction of an I/O pin.
    fn set_direction(&mut self, direction: Direction)
        ensures
            final(self).history() == old(self).history().push(PinEvent::SetDirection(direction)),
    ;

    /// Sets a value on an I/O pin.
    fn set_level(&mut self, level: Level)
        ensures
            final(self).history() == old(self).history().push(PinEvent::SetLevel(level)),
    ;

    /// Reads the value of an I/O pin: zero for low, anything else for high.
    fn get_value(&mut self) -> (r: u8)
        ensures
            final(self).history() == old(self).history().push(
                PinEvent::Sample(level_of_value(r)),
            ),
    ;
}

/// One wait requested from a delay provider.
#[derive(Clone, Copy, Debug, PartialEq, Eq, Structural)]
pub enum Wait {
    Ns(u16),
    Us(u16),
    Ms(u16),
}

/// The `Delay` trait is used to adapt the timing to the specific hardware and must be implemented
/// by the libary user. Each method blocks for at least the given duration, and is recorded in
/// the provider's list of waits.
pub trait Delay {
    /// Every wait requested so far, oldest first.
    ///
    /// The default body serves implementations built outside the verifier, which it never
    /// reads; an implementation in verified code gives its own.
    closed spec fn waits(&self) -> Seq<Wait> {
        Seq::empty()
    }

    fn delay_ns(&mut self, ns: u16)
        ensures
            final(self).waits() == old(self).waits().push(Wait::Ns(ns)),
    ;

    fn delay_us(&mut self, us: u16)
        ensures
            final(self).waits() == old(self).waits().push(Wait::Us(us)),
    ;

    fn delay_ms(&mut self, ms: u16)
        ensures
            final(self).waits() == old(self).waits().push(Wait::Ms(ms)),
    ;
}

/// A set of data lines: gives the history of the pin of each data line it wires, and says
/// how each transaction of a parallel connection over these lines looks on the bus.
pub trait DataLines {
    /// The history of the pin of data line `i`; empty for a line that is not wired.
    spec fn data_history(&self, i: u8) -> Seq<PinEvent>;

    /// The bus events of one transaction over these data lines.
    spec fn transaction_events(transaction: Transaction) -> Seq<BusEvent>;
}

/// One of the wires between the host and the controller.
#[derive(Clone, Copy, Debug, PartialEq, Eq, Structural)]
pub enum Line {
    RegisterSelect,
    ReadWrite,
    Enable,
    /// The data line with the given number, 0 to 7.
    Data(u8),
}

/// One step that a connection performs on its pins and its delay provider.
#[derive(Clone, Copy, Debug, PartialEq, Eq, Structural)]
pub enum BusEvent {
    /// The pin of the line was initialized.
    Configure(Line),
    /// The pin of the line was switched to the given direction.
    SetDirection(Line, Direction),
    /// The line was driven to the given level.
    SetLevel(Line, Level),
    /// The line was read and found at the given level.
    Sample(Line, Level),
    DelayNs(u16),
    DelayUs(u16),
    DelayMs(u16),
}

/// The call that a bus event makes on the pin of `line`, if any.
pub open spec fn pin_event(event: BusEvent, line: Line) -> Option<PinEvent> {
    match event {
        BusEvent::Configure(l) => if l == line {
            Some(PinEvent::Init)
        } else {
            None
        },
        BusEvent::SetDirection(l, d) => if l == line {
            Some(PinEvent::SetDirection(d))
        } else {
            None
        },
        BusEvent::SetLevel(l, v) => if l == line {
            Some(PinEvent::SetLevel(v))
        } else {
            None
        },
        BusEvent::Sample(l, v) => if l == line {
            Some(PinEvent::Sample(v))
        } else {
            None
        },
        _ => None,
    }
}

/// The wait that a bus event requests from the delay provider, if any.
pub open spec fn wait_event(event: BusEvent) -> Option<Wait> {
    match event {
        BusEvent::DelayNs(ns) => Some(Wait::Ns(ns)),
        BusEvent::DelayUs(us) => Some(Wait::Us(us)),
        BusEvent::DelayMs(ms) => Some(Wait::Ms(ms)),
        _ => None,
    }
}

/// The calls that a sequence of bus events makes on the pin of `line`, in order.
pub open spec fn line_events(events: Seq<BusEvent>, line: Line) -> Seq<PinEvent>
    decreases events.len(),
{
    if events.len() == 0 {
        Seq::empty()
    } else {
        let rest = line_events(events.drop_last(), line);
        match pin_event(events.last(), line) {
            Some(e) => rest.push(e),
            None => rest,
        }
    }
}

/// The waits that a sequence of bus events requests, in order.
pub open spec fn wait_events(events: Seq<BusEvent>) -> Seq<Wait>
    decreases events.len(),
{
    if events.len() == 0 {
        Seq::empty()
    } else {
        let rest = wait_events(events.drop_last());
        match wait_event(events.last()) {
            Some(w) => rest.push(w),
            None => rest,
        }
    }
}

/// The calls on a line of two sequences of bus events, one after the other, are the calls of
/// the first followed by those of the second.
pub proof fn lemma_line_events_append(a: Seq<BusEvent>, b: Seq<BusEvent>, line: Line)
    ensures
        line_events(a + b, line) == line_events(a, line) + line_events(b, line),
    decreases b.len(),
{
    if b.len() == 0 {
        assert(a + b =~= a);
        assert(line_events(a, line) + Seq::<PinEvent>::empty() =~= line_events(a, line));
    } else {
        assert((a + b).drop_last() =~= a + b.drop_last());
        lemma_line_events_append(a, b.drop_last(), line);
        match pin_event(b.last(), line) {
            Some(call) => {
                assert((line_events(a, line) + line_events(b.drop_last(), line)).push(call)
                    =~= line_events(a, line) + line_events(b.drop_last(), line).push(call));
            },
            None => {},
        }
    }
}

/// The waits of two sequences of bus events, one after the other, are the waits of the first
/// followed by those of the second.
pub proof fn lemma_wait_events_append(a: Seq<BusEvent>, b: Seq<BusEvent>)
    ensures
        wait_events(a + b) == wait_events(a) + wait_events(b),
    decreases b.len(),
{
    if b.len() == 0 {
        assert(a + b =~= a);
        assert(wait_events(a) + Seq::<Wait>::empty() =~= wait_events(a));
    } else {
        assert((a + b).drop_last() =~= a + b.drop_last());
        lemma_wait_events_append(a, b.drop_last());
        match wait_event(b.last()) {
            Some(wait) => {
                assert((wait_events(a) + wait_events(b.drop_last())).push(wait) =~= wait_events(a)
                    + wait_events(b.drop_last()).push(wait));
            },
            None => {},
        }
    }
}

/// The bus events of a sequence of transactions over the data lines `D`, in order.
pub open spec fn bus_events<D: DataLines>(transactions: Seq<Transaction>) -> Seq<BusEvent>
    decreases transactions.len(),
{
    if transactions.len() == 0 {
        Seq::empty()
    } else {
        bus_events::<D>(transactions.drop_last()) + D::transaction_events(transactions.last())
    }
}

/// The level of bit `i` of `value`.
pub open spec fn bit_level(value: u8, i: u8) -> Level {
    if (value >> i) & 1 == 1 {
        Level::High
    } else {
        Level::Low
    }
}

/// The levels of data lines 4 to 7 that carry a nibble: bit 0 on data line 4, bit 3 on data
/// line 7.
pub open spec fn nibble_levels(nibble: u8) -> Seq<Level> {
    seq![bit_level(nibble, 0), bit_level(nibble, 1), bit_level(nibble, 2), bit_level(nibble, 3)]
}

/// The upper nibble of a byte, sent first.
pub open spec fn upper_nibble(byte: u8) -> u8 {
    byte >> 4
}

/// The lower nibble of a byte, sent second.
pub open spec fn lower_nibble(byte: u8) -> u8 {
    byte & 0x0f
}

/// One enable pulse that hands a nibble to the controller: setup time, enable high, data
/// lines 4 to 7 driven to the nibble's bits, pulse width, enable low, hold time.
pub open spec fn write_nibble_events(nibble: u8) -> Seq<BusEvent> {
    let levels = nibble_levels(nibble);
    seq![
        BusEvent::DelayNs(ADDRESS_SETUP_TIME),
        BusEvent::SetLevel(Line::Enable, Level::High),
        BusEvent::SetLevel(Line::Data(4), levels[0]),
        BusEvent::SetLevel(Line::Data(5), levels[1]),
        BusEvent::SetLevel(Line::Data(6), levels[2]),
        BusEvent::SetLevel(Line::Data(7), levels[3]),
        BusEvent::DelayNs(ENABLE_PULSE_WIDTH),
        BusEvent::SetLevel(Line::Enable, Level::Low),
        BusEvent::DelayNs(DATA_HOLD_TIME),
    ]
}

/// One enable pulse that takes a nibble from the controller: data lines 4 to 7 are read
/// while enable is high, and carry the bits of `nibble`.
pub open spec fn read_nibble_events(nibble: u8) -> Seq<BusEvent> {
    let levels = nibble_levels(nibble);
    seq![
        BusEvent::DelayNs(ADDRESS_SETUP_TIME),
        BusEvent::SetLevel(Line::Enable, Level::High),
        BusEvent::Sample(Line::Data(4), levels[0]),
        BusEvent::Sample(Line::Data(5), levels[1]),
        BusEvent::Sample(Line::Data(6), levels[2]),
        BusEvent::Sample(Line::Data(7), levels[3]),
        BusEvent::DelayNs(ENABLE_PULSE_WIDTH),
        BusEvent::SetLevel(Line::Enable, Level::Low),
        BusEvent::DelayNs(DATA_HOLD_TIME),
    ]
}

/// Sends a byte on the 4-bit bus: upper nibble, lower nibble, then the command execution time.
pub open spec fn send_byte_events(byte: u8) -> Seq<BusEvent> {
    write_nibble_events(upper_nibble(byte)) + write_nibble_events(lower_nibble(byte)) + seq![
        BusEvent::DelayUs(COMMAND_EXECUTION_TIME),
    ]
}

/// Selects a write of the given kind: read/write low, register select by kind.
pub open spec fn select_write_events(mode: WriteMode) -> Seq<BusEvent> {
    seq![
        BusEvent::SetLevel(Line::ReadWrite, Level::Low),
        BusEvent::SetLevel(Line::RegisterSelect, mode.spec_register_select()),
    ]
}

/// The whole transaction that sends one instruction or data byte in 4-bit mode.
pub open spec fn send_events(mode: WriteMode) -> Seq<BusEvent> {
    select_write_events(mode) + send_byte_events(mode.spec_value())
}

/// One synchronisation instruction of the power-on sequence: each nibble is executed by the
/// controller as a whole instruction and is followed by its own settle time.
pub open spec fn send_init_events(mode: WriteMode) -> Seq<BusEvent> {
    select_write_events(mode) + write_nibble_events(upper_nibble(mode.spec_value())) + seq![
        BusEvent::DelayMs(SYNC_INSTRUCTION_TIME),
    ] + write_nibble_events(lower_nibble(mode.spec_value())) + seq![
        BusEvent::DelayUs(SYNC_EXECUTION_TIME),
    ]
}

/// Sets the direction of data lines 4 to 7.
pub open spec fn data_direction_events(direction: Direction) -> Seq<BusEvent> {
    seq![
        BusEvent::SetDirection(Line::Data(4), direction),
        BusEvent::SetDirection(Line::Data(5), direction),
        BusEvent::SetDirection(Line::Data(6), direction),
        BusEvent::SetDirection(Line::Data(7), direction),
    ]
}

/// Receives a byte on the 4-bit bus: data lines to input, upper nibble, lower nibble, data
/// lines back to output.
pub open spec fn receive_byte_events(byte: u8) -> Seq<BusEvent> {
    data_direction_events(Direction::In) + read_nibble_events(upper_nibble(byte))
        + read_nibble_events(lower_nibble(byte)) + data_direction_events(Direction::Out)
}

/// The whole transaction that reads one byte of the given kind in 4-bit mode; read/write is
/// high while the controller drives the data lines.
pub open spec fn receive_events(mode: ReadMode, byte: u8) -> Seq<BusEvent> {
    seq![
        BusEvent::SetLevel(Line::ReadWrite, Level::High),
        BusEvent::SetLevel(Line::RegisterSelect, mode.spec_register_select()),
    ] + receive_byte_events(byte) + seq![BusEvent::SetLevel(Line::ReadWrite, Level::Low)]
}

/// Initializes one pin as an output.
pub open spec fn configure_events(line: Line) -> Seq<BusEvent> {
    seq![BusEvent::Configure(line), BusEvent::SetDirection(line, Direction::Out)]
}

/// Initializes every pin of a 4-bit connection as an output, then waits the power-on time.
pub open spec fn init_events() -> Seq<BusEvent> {
    configure_events(Line::RegisterSelect) + configure_events(Line::ReadWrite) + configure_events(
        Line::Enable,
    ) + configure_events(Line::Data(4)) + configure_events(Line::Data(5)) + configure_events(
        Line::Data(6),
    ) + configure_events(Line::Data(7)) + seq![BusEvent::DelayMs(POWER_ON_TIME)]
}

/// The lines an 8-bit connection is wired to.
pub open spec fn is_8bit_line(line: Line) -> bool {
    match line {
        Line::Data(i) => i <= 7,
        _ => true,
    }
}

/// The levels of data lines 0 to 7 that carry a byte: bit `i` on data line `i`.
pub open spec fn byte_levels(byte: u8) -> Seq<Level> {
    Seq::new(8, |i: int| bit_level(byte, i as u8))
}

/// Drives data line `i` to `levels[i]`, for `i` from 0 to 7.
pub open spec fn drive_data8_events(levels: Seq<Level>) -> Seq<BusEvent> {
    Seq::new(8, |i: int| BusEvent::SetLevel(Line::Data(i as u8), levels[i]))
}

/// Reads data line `i` and finds it at `levels[i]`, for `i` from 0 to 7.
pub open spec fn sample_data8_events(levels: Seq<Level>) -> Seq<BusEvent> {
    Seq::new(8, |i: int| BusEvent::Sample(Line::Data(i as u8), levels[i]))
}

/// One enable pulse that hands a whole byte to the controller over data lines 0 to 7.
pub open spec fn write_byte8_events(byte: u8) -> Seq<BusEvent> {
    seq![
        BusEvent::DelayNs(ADDRESS_SETUP_TIME),
        BusEvent::SetLevel(Line::Enable, Level::High),
    ] + drive_data8_events(byte_levels(byte)) + seq![
        BusEvent::DelayNs(ENABLE_PULSE_WIDTH),
        BusEvent::SetLevel(Line::Enable, Level::Low),
        BusEvent::DelayNs(DATA_HOLD_TIME),
    ]
}

/// One enable pulse that takes a whole byte from the controller over data lines 0 to 7.
pub open spec fn read_byte8_events(byte: u8) -> Seq<BusEvent> {
    seq![
        BusEvent::DelayNs(ADDRESS_SETUP_TIME),
        BusEvent::SetLevel(Line::Enable, Level::High),
    ] + sample_data8_events(byte_levels(byte)) + seq![
        BusEvent::DelayNs(ENABLE_PULSE_WIDTH),
        BusEvent::SetLevel(Line::Enable, Level::Low),
        BusEvent::DelayNs(DATA_HOLD_TIME),
    ]
}

/// Sets the direction of data lines 0 to 7.
pub open spec fn data8_direction_events(direction: Direction) -> Seq<BusEvent> {
    Seq::new(8, |i: int| BusEvent::SetDirection(Line::Data(i as u8), direction))
}

/// The whole transaction that sends one instruction or data byte in 8-bit mode.
pub open spec fn send8_events(mode: WriteMode) -> Seq<BusEvent> {
    select_write_events(mode) + write_byte8_events(mode.spec_value()) + seq![
        BusEvent::DelayUs(COMMAND_EXECUTION_TIME),
    ]
}

/// Sends a byte over data lines 0 to 7, then waits the command execution time.
pub open spec fn send_byte8_events(byte: u8) -> Seq<BusEvent> {
    write_byte8_events(byte) + seq![BusEvent::DelayUs(COMMAND_EXECUTION_TIME)]
}

/// One synchronisation instruction of the power-on sequence in 8-bit mode.
pub open spec fn send_init8_events(mode: WriteMode) -> Seq<BusEvent> {
    select_write_events(mode) + write_byte8_events(mode.spec_value()) + seq![
        BusEvent::DelayMs(SYNC_INSTRUCTION_TIME),
    ]
}

/// Receives a byte on the 8-bit bus: data lines to input, one enable pulse, data lines back
/// to output.
pub open spec fn receive_byte8_events(byte: u8) -> Seq<BusEvent> {
    data8_direction_events(Direction::In) + read_byte8_events(byte) + data8_direction_events(
        Direction::Out,
    )
}

/// The whole transaction that reads one byte of the given kind in 8-bit mode.
pub open spec fn receive8_events(mode: ReadMode, byte: u8) -> Seq<BusEvent> {
    seq![
        BusEvent::SetLevel(Line::ReadWrite, Level::High),
        BusEvent::SetLevel(Line::RegisterSelect, mode.spec_register_select()),
    ] + receive_byte8_events(byte) + seq![BusEvent::SetLevel(Line::ReadWrite, Level::Low)]
}

/// Initializes every pin of an 8-bit connection as an output, then waits the power-on time.
pub open spec fn init8_events() -> Seq<BusEvent> {
    configure_events(Line::RegisterSelect) + configure_events(Line::ReadWrite) + configure_events(
        Line::Enable,
    ) + configure_events(Line::Data(0)) + configure_events(Line::Data(1)) + configure_events(
        Line::Data(2),
    ) + configure_events(Line::Data(3)) + configure_events(Line::Data(4)) + configure_events(
        Line::Data(5),
    ) + configure_events(Line::Data(6)) + configure_events(Line::Data(7)) + seq![
        BusEvent::DelayMs(POWER_ON_TIME),
    ]
}

/// The lines a 4-bit connection is wired to.
pub open spec fn is_4bit_line(line: Line) -> bool {
    match line {
        Line::Data(i) => 4 <= i <= 7,
        _ => true,
    }
}

/// The level of bit `i` of `value`.
fn level_of_bit(value: u8, i: u8) -> (r: Level)
    requires
        i < 8,
    ensures
        r == bit_level(value, i),
{
    if (value >> i) & 1 == 1 {
        Level::High
    } else {
        Level::Low
    }
}

/// The byte whose bits stand on data lines 0 to 7: `lower` holds lines 0 to 3, `upper` lines
/// 4 to 7.
fn byte_of_levels(lower: [Level; 4], upper: [Level; 4]) -> (r: u8)
    ensures
        byte_levels(r) == lower@ + upper@,
{
    let l = nibble_of_levels(lower[0], lower[1], lower[2], lower[3]);
    let u = nibble_of_levels(upper[0], upper[1], upper[2], upper[3]);
    let r = (u << 4) | l;
    assert((r >> 0u8) & 1 == (l >> 0u8) & 1 && (r >> 1u8) & 1 == (l >> 1u8) & 1 && (r >> 2u8) & 1
        == (l >> 2u8) & 1 && (r >> 3u8) & 1 == (l >> 3u8) & 1 && (r >> 4u8) & 1 == (u >> 0u8) & 1
        && (r >> 5u8) & 1 == (u >> 1u8) & 1 && (r >> 6u8) & 1 == (u >> 2u8) & 1 && (r >> 7u8) & 1
        == (u >> 3u8) & 1) by (bit_vector)
        requires
            u < 16,
            l < 16,
            r == (u << 4) | l,
    ;
    assert(nibble_levels(l) == lower@);
    assert(nibble_levels(u) == upper@);
    assert(byte_levels(r)[0] == nibble_levels(l)[0]);
    assert(byte_levels(r)[1] == nibble_levels(l)[1]);
    assert(byte_levels(r)[2] == nibble_levels(l)[2]);
    assert(byte_levels(r)[3] == nibble_levels(l)[3]);
    assert(byte_levels(r)[4] == nibble_levels(u)[0]);
    assert(byte_levels(r)[5] == nibble_levels(u)[1]);
    assert(byte_levels(r)[6] == nibble_levels(u)[2]);
    assert(byte_levels(r)[7] == nibble_levels(u)[3]);
    assert(byte_levels(r) =~= lower@ + upper@);
    r
}

/// The nibble whose bits stand on data lines 4 to 7.
fn nibble_of_levels(d4: Level, d5: Level, d6: Level, d7: Level) -> (r: u8)
    ensures
        r < 16,
        nibble_levels(r) == seq![d4, d5, d6, d7],
{
    let b0: u8 = if d4 == Level::High { 1 } else { 0 };
    let b1: u8 = if d5 == Level::High { 1 } else { 0 };
    let b2: u8 = if d6 == Level::High { 1 } else { 0 };
    let b3: u8 = if d7 == Level::High { 1 } else { 0 };
    let r = b0 | (b1 << 1) | (b2 << 2) | (b3 << 3);
    assert(r < 16 && (r >> 0u8) & 1 == b0 && (r >> 1u8) & 1 == b1 && (r >> 2u8) & 1 == b2 && (r
        >> 3u8) & 1 == b3) by (bit_vector)
        requires
            b0 <= 1 && b1 <= 1 && b2 <= 1 && b3 <= 1,
            r == b0 | (b1 << 1) | (b2 << 2) | (b3 << 3),
    ;
    assert(nibble_levels(r) =~= seq![d4, d5, d6, d7]);
    r
}

/// Joining two nibbles into a byte keeps each of them.
proof fn lemma_join_nibbles(upper: u8, lower: u8)
    requires
        upper < 16,
        lower < 16,
    ensures
        upper_nibble(((upper << 4) | (lower & 0x0f)) as u8) == upper,
        lower_nibble(((upper << 4) | (lower & 0x0f)) as u8) == lower,
{
    assert((((upper << 4u8) | (lower & 0x0fu8)) >> 4u8) == upper && (((upper << 4u8) | (lower
        & 0x0fu8)) & 0x0fu8) == lower) by (bit_vector)
        requires
            upper < 16,
            lower < 16,
    ;
}

/// Nibble round trip: a send drives data lines 4 to 7 with `nibble_levels` of the upper, then
/// of the lower nibble of its byte, and a receive assembles its result from the levels it
/// samples in the same way. When the two enable pulses of a receive sample exactly the levels
/// that a send drove, the received byte is the sent byte.
pub proof fn lemma_nibble_round_trip(sent: u8, received: u8)
    requires
        nibble_levels(upper_nibble(received)) == nibble_levels(upper_nibble(sent)),
        nibble_levels(lower_nibble(received)) == nibble_levels(lower_nibble(sent)),
    ensures
        received == sent,
{
    let (ru, su) = (upper_nibble(received), upper_nibble(sent));
    let (rl, sl) = (lower_nibble(received), lower_nibble(sent));
    assert(forall|i: int|
        0 <= i < 4 ==> nibble_levels(ru)[i] == nibble_levels(su)[i] && nibble_levels(rl)[i]
            == nibble_levels(sl)[i]);
    assert(bit_level(ru, 0) == bit_level(su, 0));
    assert(bit_level(ru, 1) == bit_level(su, 1));
    assert(bit_level(ru, 2) == bit_level(su, 2));
    assert(bit_level(ru, 3) == bit_level(su, 3));
    assert(bit_level(rl, 0) == bit_level(sl, 0));
    assert(bit_level(rl, 1) == bit_level(sl, 1));
    assert(bit_level(rl, 2) == bit_level(sl, 2));
    assert(bit_level(rl, 3) == bit_level(sl, 3));
    assert(received == sent) by (bit_vector)
        requires
            ((received >> 4u8) >> 0u8) & 1 == 1 <==> ((sent >> 4u8) >> 0u8) & 1 == 1,
            ((received >> 4u8) >> 1u8) & 1 == 1 <==> ((sent >> 4u8) >> 1u8) & 1 == 1,
            ((received >> 4u8) >> 2u8) & 1 == 1 <==> ((sent >> 4u8) >> 2u8) & 1 == 1,
            ((received >> 4u8) >> 3u8) & 1 == 1 <==> ((sent >> 4u8) >> 3u8) & 1 == 1,
            ((received & 0x0fu8) >> 0u8) & 1 == 1 <==> ((sent & 0x0fu8) >> 0u8) & 1 == 1,
            ((received & 0x0fu8) >> 1u8) & 1 == 1 <==> ((sent & 0x0fu8) >> 1u8) & 1 == 1,
            ((received & 0x0fu8) >> 2u8) & 1 == 1 <==> ((sent & 0x0fu8) >> 2u8) & 1 == 1,
            ((received & 0x0fu8) >> 3u8) & 1 == 1 <==> ((sent & 0x0fu8) >> 3u8) & 1 == 1,
    ;
}

/// This struct is used for easily setting up [`ParallelConnection`]s.
///
/// [`ParallelConnection`]: struct.ParallelConnection.html
pub struct Pins<RS, R, E, D> {
    pub register_select: RS,
    pub read: R,
    pub enable: E,
    pub data: D,
}

/// Four data lines pin wiring setup.
pub struct DataPins4Lines<P4, P5, P6, P7> {
    pub data4: P4,
    pub data5: P5,
    pub data6: P6,
    pub data7: P7,
}

/// Eight data lines pin wiring setup.
pub struct DataPins8Lines<P0, P1, P2, P3, P4, P5, P6, P7> {
    pub data0: P0,
    pub data1: P1,
    pub data2: P2,
    pub data3: P3,
    pub data4: P4,
    pub data5: P5,
    pub data6: P6,
    pub data7: P7,
}

/// The parallel connection mode is the most common wiring mode for HD44780 compliant displays.
/// It can be used with either four ([`DataPins4Lines`]) or eight ([`DataPins8Lines`]) data lines.
///
/// [`DataPins4Lines`]: struct.DataPins4Lines.html
/// [`DataPins8Lines`]: struct.DataPins8Lines.html
pub struct ParallelConnection<RS, R, E, D, T> {
    register_select: RS,
    read: R,
    enable: E,
    data: D,
    delay: T,
    events: Ghost<Seq<BusEvent>>,
    transactions: Ghost<Seq<Transaction>>,
    initial_history: Ghost<spec_fn(Line) -> Seq<PinEvent>>,
    initial_waits: Ghost<Seq<Wait>>,
}

impl<P4, P5, P6, P7> DataLines for DataPins4Lines<P4, P5, P6, P7> where
    P4: DisplayHardwareLayer,
    P5: DisplayHardwareLayer,
    P6: DisplayHardwareLayer,
    P7: DisplayHardwareLayer,
 {
    open spec fn data_history(&self, i: u8) -> Seq<PinEvent> {
        if i == 4 {
            self.data4.history()
        } else if i == 5 {
            self.data5.history()
        } else if i == 6 {
            self.data6.history()
        } else if i == 7 {
            self.data7.history()
        } else {
            Seq::empty()
        }
    }

    open spec fn transaction_events(transaction: Transaction) -> Seq<BusEvent> {
        match transaction {
            Transaction::Init => init_events(),
            Transaction::SendInit(mode) => send_init_events(mode),
            Transaction::Send(mode) => send_events(mode),
            Transaction::Receive(mode, byte) => receive_events(mode, byte),
            Transaction::SendByte(byte) => send_byte_events(byte),
            Transaction::ReceiveByte(byte) => receive_byte_events(byte),
        }
    }
}

impl<P0, P1, P2, P3, P4, P5, P6, P7> DataLines for DataPins8Lines<P0, P1, P2, P3, P4, P5, P6, P7> where
    P0: DisplayHardwareLayer,
    P1: DisplayHardwareLayer,
    P2: DisplayHardwareLayer,
    P3: DisplayHardwareLayer,
    P4: DisplayHardwareLayer,
    P5: DisplayHardwareLayer,
    P6: DisplayHardwareLayer,
    P7: DisplayHardwareLayer,
 {
    open spec fn data_history(&self, i: u8) -> Seq<PinEvent> {
        if i == 0 {
            self.data0.history()
        } else if i == 1 {
            self.data1.history()
        } else if i == 2 {
            self.data2.history()
        } else if i == 3 {
            self.data3.history()
        } else if i == 4 {
            self.data4.history()
        } else if i == 5 {
            self.data5.history()
        } else if i == 6 {
            self.data6.history()
        } else if i == 7 {
            self.data7.history()
        } else {
            Seq::empty()
        }
    }

    open spec fn transaction_events(transaction: Transaction) -> Seq<BusEvent> {
        match transaction {
            Transaction::Init => init8_events(),
            Transaction::SendInit(mode) => send_init8_events(mode),
            Transaction::Send(mode) => send8_events(mode),
            Transaction::Receive(mode, byte) => receive8_events(mode, byte),
            Transaction::SendByte(byte) => send_byte8_events(byte),
            Transaction::ReceiveByte(byte) => receive_byte8_events(byte),
        }
    }
}

impl<RS, R, E, D> Pins<RS, R, E, D> where
    RS: DisplayHardwareLayer,
    R: DisplayHardwareLayer,
    E: DisplayHardwareLayer,
    D: DataLines,
 {
    /// Converts the pin setup into a [`ParallelConnection`] that is used by `Display` to
    /// communicate with the LCD device.
    ///
    /// [`ParallelConnection`]: struct.ParallelConnection.html
    pub fn into_connection<T: Delay>(self, delay: T) -> (r: ParallelConnection<RS, R, E, D, T>)
        ensures
            r.wf(),
            r.transactions() == Seq::<Transaction>::empty(),
            r.events() == Seq::<BusEvent>::empty(),
            r.waits() == delay.waits(),
            r.initial_waits() == delay.waits(),
            forall|line: Line| r.initial_history(line) == #[trigger] r.line_history(line),
            r.line_history(Line::RegisterSelect) == self.register_select.history(),
            r.line_history(Line::ReadWrite) == self.read.history(),
            r.line_history(Line::Enable) == self.enable.history(),
            forall|i: u8| r.line_history(Line::Data(i)) == #[trigger] self.data.data_history(i),
    {
        let ghost pins = self;
        let ghost history = |line: Line|
            match line {
                Line::RegisterSelect => pins.register_select.history(),
                Line::ReadWrite => pins.read.history(),
                Line::Enable => pins.enable.history(),
                Line::Data(i) => pins.data.data_history(i),
            };
        let ghost waits = delay.waits();
        let r = ParallelConnection {
            register_select: self.register_select,
            read: self.read,
            enable: self.enable,
            data: self.data,
            delay,
            events: Ghost(Seq::empty()),
            transactions: Ghost(Seq::empty()),
            initial_history: Ghost(history),
            initial_waits: Ghost(waits),
        };
        assert forall|line: Line| #[trigger]
            r.line_history(line) == r.initial_history(line) + line_events(r.events(), line) by {
            assert(r.initial_history(line) + Seq::<PinEvent>::empty() =~= r.initial_history(line));
        }
        assert(r.initial_waits() + Seq::<Wait>::empty() =~= r.initial_waits());
        r
    }
}

impl<RS, R, E, D, T> ParallelConnection<RS, R, E, D, T> where
    RS: DisplayHardwareLayer,
    R: DisplayHardwareLayer,
    E: DisplayHardwareLayer,
    D: DataLines,
    T: Delay,
 {
    /// Every step the connection has taken on its pins and its delay provider, oldest first.
    pub closed spec fn events(&self) -> Seq<BusEvent> {
        self.events@
    }

    /// The transactions carried out so far, oldest first.
    pub closed spec fn recorded_transactions(&self) -> Seq<Transaction> {
        self.transactions@
    }

    /// The history of the pin wired to `line`.
    pub closed spec fn line_history(&self, line: Line) -> Seq<PinEvent> {
        match line {
            Line::RegisterSelect => self.register_select.history(),
            Line::ReadWrite => self.read.history(),
            Line::Enable => self.enable.history(),
            Line::Data(i) => self.data.data_history(i),
        }
    }

    /// The waits requested from the delay provider.
    pub closed spec fn waits(&self) -> Seq<Wait> {
        self.delay.waits()
    }

    /// The history of the pin wired to `line` when the connection was made.
    pub closed spec fn initial_history(&self, line: Line) -> Seq<PinEvent> {
        (self.initial_history@)(line)
    }

    /// The waits of the delay provider when the connection was made.
    pub closed spec fn initial_waits(&self) -> Seq<Wait> {
        self.initial_waits@
    }

    /// The pins and the delay provider got exactly the calls that the steps so far make: each
    /// pin's history is what it was when the connection was made followed by the calls on its
    /// line, and likewise for the waits.
    pub open spec fn linked(&self) -> bool {
        &&& forall|line: Line| #[trigger]
            self.line_history(line) == self.initial_history(line) + line_events(
                self.events(),
                line,
            )
        &&& self.waits() == self.initial_waits() + wait_events(self.events())
    }

    /// The steps so far are exactly those of the transactions carried out, and the pins and
    /// the delay provider got exactly the calls they make.
    pub open spec fn consistent(&self) -> bool {
        &&& self.linked()
        &&& self.events() == bus_events::<D>(self.recorded_transactions())
    }

    /// Both states belong to a connection made from the same pins and delay provider.
    pub open spec fn same_origin(&self, other: Self) -> bool {
        &&& self.initial_waits() == other.initial_waits()
        &&& forall|line: Line| #[trigger]
            self.initial_history(line) == other.initial_history(line)
    }

    /// Both states belong to the same connection and have carried out the same transactions.
    pub open spec fn same_setup(&self, other: Self) -> bool {
        &&& self.recorded_transactions() == other.recorded_transactions()
        &&& self.same_origin(other)
    }

    /// Recording one step keeps the connection linked when the pin it names, or the delay
    /// provider, got the matching call and nothing else changed.
    proof fn lemma_record(before: Self, after: Self, event: BusEvent)
        requires
            before.linked(),
            after.same_setup(before),
            after.events() == before.events().push(event),
            forall|line: Line| #[trigger]
                after.line_history(line) == match pin_event(event, line) {
                    Some(call) => before.line_history(line).push(call),
                    None => before.line_history(line),
                },
            after.waits() == match wait_event(event) {
                Some(wait) => before.waits().push(wait),
                None => before.waits(),
            },
        ensures
            after.linked(),
    {
        assert(after.events().drop_last() =~= before.events());
        assert forall|line: Line| #[trigger]
            after.line_history(line) == after.initial_history(line) + line_events(
                after.events(),
                line,
            ) by {
            let start = before.initial_history(line);
            let calls = line_events(before.events(), line);
            match pin_event(event, line) {
                Some(call) => {
                    assert((start + calls).push(call) =~= start + calls.push(call));
                },
                None => {},
            }
        }
        match wait_event(event) {
            Some(wait) => {
                assert((before.initial_waits() + wait_events(before.events())).push(wait)
                    =~= before.initial_waits() + wait_events(before.events()).push(wait));
            },
            None => {},
        }
    }

    /// What one transaction does on the bus: when a consistent connection carries out one
    /// more transaction and stays consistent, its steps grow by exactly the transaction's bus
    /// events, each pin gets exactly the calls those events make on its line, and the delay
    /// provider gets exactly their waits.
    pub proof fn lemma_transaction_on_bus(before: Self, after: Self, transaction: Transaction)
        requires
            before.consistent(),
            after.consistent(),
            after.same_origin(before),
            after.recorded_transactions() == before.recorded_transactions().push(transaction),
        ensures
            after.events() == before.events() + D::transaction_events(transaction),
            forall|line: Line| #[trigger]
                after.line_history(line) == before.line_history(line) + line_events(
                    D::transaction_events(transaction),
                    line,
                ),
            after.waits() == before.waits() + wait_events(D::transaction_events(transaction)),
    {
        let steps = D::transaction_events(transaction);
        assert(after.recorded_transactions().drop_last() =~= before.recorded_transactions());
        assert forall|line: Line| #[trigger]
            after.line_history(line) == before.line_history(line) + line_events(steps, line) by {
            lemma_line_events_append(before.events(), steps, line);
            assert(before.initial_history(line) + (line_events(before.events(), line)
                + line_events(steps, line)) =~= before.initial_history(line) + line_events(
                before.events(),
                line,
            ) + line_events(steps, line));
        }
        lemma_wait_events_append(before.events(), steps);
        assert(before.initial_waits() + (wait_events(before.events()) + wait_events(steps))
            =~= before.initial_waits() + wait_events(before.events()) + wait_events(steps));
    }

    /// Records a finished transaction.
    fn finish(&mut self, transaction: Transaction)
        requires
            old(self).linked(),
            old(self).events() == bus_events::<D>(old(self).recorded_transactions())
                + D::transaction_events(transaction),
        ensures
            final(self).consistent(),
            final(self).recorded_transactions() == old(self).recorded_transactions().push(
                transaction,
            ),
            final(self).events() == old(self).events(),
            final(self).same_origin(*old(self)),
    {
        let ghost before = self.transactions@;
        self.transactions = Ghost(self.transactions@.push(transaction));
        assert(self.transactions@.drop_last() =~= before);
        assert forall|line: Line| #[trigger]
            self.line_history(line) == self.initial_history(line) + line_events(
                self.events(),
                line,
            ) by {
            assert(old(self).line_history(line) == self.line_history(line));
        }
    }

    /// Gives the pins and the delay provider back.
    pub fn release(self) -> (r: (Pins<RS, R, E, D>, T))
        ensures
            r.0.register_select.history() == self.line_history(Line::RegisterSelect),
            r.0.read.history() == self.line_history(Line::ReadWrite),
            r.0.enable.history() == self.line_history(Line::Enable),
            forall|i: u8| #[trigger] r.0.data.data_history(i) == self.line_history(Line::Data(i)),
            r.1.waits() == self.waits(),
    {
        (
            Pins {
                register_select: self.register_select,
                read: self.read,
                enable: self.enable,
                data: self.data,
            },
            self.delay,
        )
    }


    fn wait_ns(&mut self, ns: u16)
        requires
            old(self).linked(),
        ensures
            final(self).linked(),
            final(self).same_setup(*old(self)),
            final(self).events() == old(self).events().push(BusEvent::DelayNs(ns)),
    {
        let ghost before = *self;
        self.delay.delay_ns(ns);
        self.events = Ghost(self.events@.push(BusEvent::DelayNs(ns)));
    proof {
        Self::lemma_record(before, *self, BusEvent::DelayNs(ns));
    }
    }

    fn wait_us(&mut self, us: u16)
        requires
            old(self).linked(),
        ensures
            final(self).linked(),
            final(self).same_setup(*old(self)),
            final(self).events() == old(self).events().push(BusEvent::DelayUs(us)),
    {
        let ghost before = *self;
        self.delay.delay_us(us);
        self.events = Ghost(self.events@.push(BusEvent::DelayUs(us)));
    proof {
        Self::lemma_record(before, *self, BusEvent::DelayUs(us));
    }
    }

    fn wait_ms(&mut self, ms: u16)
        requires
            old(self).linked(),
        ensures
            final(self).linked(),
            final(self).same_setup(*old(self)),
            final(self).events() == old(self).events().push(BusEvent::DelayMs(ms)),
    {
        let ghost before = *self;
        self.delay.delay_ms(ms);
        self.events = Ghost(self.events@.push(BusEvent::DelayMs(ms)));
    proof {
        Self::lemma_record(before, *self, BusEvent::DelayMs(ms));
    }
    }
}

impl<RS, R, E, D, T> Connection for ParallelConnection<RS, R, E, D, T> where
    RS: DisplayHardwareLayer,
    R: DisplayHardwareLayer,
    E: DisplayHardwareLayer,
    D: DataLines,
    T: Delay,
 {
    open spec fn transactions(&self) -> Seq<Transaction> {
        self.recorded_transactions()
    }

    open spec fn wf(&self) -> bool {
        self.consistent()
    }

    open spec fn continues(&self, earlier: Self) -> bool {
        self.same_origin(earlier)
    }
}

impl<RS, R, E, T, P4, P5, P6, P7> ParallelConnection<RS, R, E, DataPins4Lines<P4, P5, P6, P7>, T> where
    RS: DisplayHardwareLayer,
    R: DisplayHardwareLayer,
    E: DisplayHardwareLayer,
    P4: DisplayHardwareLayer,
    P5: DisplayHardwareLayer,
    P6: DisplayHardwareLayer,
    P7: DisplayHardwareLayer,
    T: Delay,
 {
    /// Drives one line to a level.
    fn set_line(&mut self, line: Line, level: Level)
        requires
            old(self).linked(),
            is_4bit_line(line),
        ensures
            final(self).linked(),
            final(self).same_setup(*old(self)),
            final(self).events() == old(self).events().push(BusEvent::SetLevel(line, level)),
    {
        let ghost before = *self;
        match line {
            Line::RegisterSelect => self.register_select.set_level(level),
            Line::ReadWrite => self.read.set_level(level),
            Line::Enable => self.enable.set_level(level),
            Line::Data(4) => self.data.data4.set_level(level),
            Line::Data(5) => self.data.data5.set_level(level),
            Line::Data(6) => self.data.data6.set_level(level),
            Line::Data(_) => self.data.data7.set_level(level),
        }
        self.events = Ghost(self.events@.push(BusEvent::SetLevel(line, level)));
        proof {
            Self::lemma_record(before, *self, BusEvent::SetLevel(line, level));
        }
    }

    /// Switches one line to a direction.
    fn set_line_direction(&mut self, line: Line, direction: Direction)
        requires
            old(self).linked(),
            is_4bit_line(line),
        ensures
            final(self).linked(),
            final(self).same_setup(*old(self)),
            final(self).events() == old(self).events().push(
                BusEvent::SetDirection(line, direction),
            ),
    {
        let ghost before = *self;
        match line {
            Line::RegisterSelect => self.register_select.set_direction(direction),
            Line::ReadWrite => self.read.set_direction(direction),
            Line::Enable => self.enable.set_direction(direction),
            Line::Data(4) => self.data.data4.set_direction(direction),
            Line::Data(5) => self.data.data5.set_direction(direction),
            Line::Data(6) => self.data.data6.set_direction(direction),
            Line::Data(_) => self.data.data7.set_direction(direction),
        }
        self.events = Ghost(self.events@.push(BusEvent::SetDirection(line, direction)));
        proof {
            Self::lemma_record(before, *self, BusEvent::SetDirection(line, direction));
        }
    }

    /// Initializes the pin of one line.
    fn configure_line(&mut self, line: Line)
        requires
            old(self).linked(),
            is_4bit_line(line),
        ensures
            final(self).linked(),
            final(self).same_setup(*old(self)),
            final(self).events() == old(self).events() + configure_events(line),
    {
        let ghost before = *self;
        match line {
            Line::RegisterSelect => self.register_select.init(),
            Line::ReadWrite => self.read.init(),
            Line::Enable => self.enable.init(),
            Line::Data(4) => self.data.data4.init(),
            Line::Data(5) => self.data.data5.init(),
            Line::Data(6) => self.data.data6.init(),
            Line::Data(_) => self.data.data7.init(),
        }
        self.events = Ghost(self.events@.push(BusEvent::Configure(line)));
        proof {
            Self::lemma_record(before, *self, BusEvent::Configure(line));
        }
        self.set_line_direction(line, Direction::Out);
        assert(final(self).events() =~= old(self).events() + configure_events(line));
    }

    /// Reads the level of one line.
    fn sample_line(&mut self, line: Line) -> (r: Level)
        requires
            old(self).linked(),
            is_4bit_line(line),
        ensures
            final(self).linked(),
            final(self).same_setup(*old(self)),
            final(self).events() == old(self).events().push(BusEvent::Sample(line, r)),
    {
        let ghost before = *self;
        let value = match line {
            Line::RegisterSelect => self.register_select.get_value(),
            Line::ReadWrite => self.read.get_value(),
            Line::Enable => self.enable.get_value(),
            Line::Data(4) => self.data.data4.get_value(),
            Line::Data(5) => self.data.data5.get_value(),
            Line::Data(6) => self.data.data6.get_value(),
            Line::Data(_) => self.data.data7.get_value(),
        };
        let level = if value == 0 {
            Level::Low
        } else {
            Level::High
        };
        self.events = Ghost(self.events@.push(BusEvent::Sample(line, level)));
        proof {
            Self::lemma_record(before, *self, BusEvent::Sample(line, level));
        }
        level
    }

    /// Hands one nibble to the controller in a single enable pulse.
    fn write_nibble(&mut self, nibble: u8)
        requires
            old(self).linked(),
        ensures
            final(self).linked(),
            final(self).same_setup(*old(self)),
            final(self).events() == old(self).events() + write_nibble_events(nibble),
    {
        self.wait_ns(ADDRESS_SETUP_TIME);
        self.set_line(Line::Enable, Level::High);
        self.set_line(Line::Data(4), level_of_bit(nibble, 0));
        self.set_line(Line::Data(5), level_of_bit(nibble, 1));
        self.set_line(Line::Data(6), level_of_bit(nibble, 2));
        self.set_line(Line::Data(7), level_of_bit(nibble, 3));
        self.wait_ns(ENABLE_PULSE_WIDTH);
        self.set_line(Line::Enable, Level::Low);
        self.wait_ns(DATA_HOLD_TIME);
        assert(final(self).events() =~= old(self).events() + write_nibble_events(nibble));
    }

    /// Takes one nibble from the controller in a single enable pulse.
    fn read_nibble(&mut self) -> (r: u8)
        requires
            old(self).linked(),
        ensures
            final(self).linked(),
            final(self).same_setup(*old(self)),
            r < 16,
            final(self).events() == old(self).events() + read_nibble_events(r),
    {
        self.wait_ns(ADDRESS_SETUP_TIME);
        self.set_line(Line::Enable, Level::High);
        let d4 = self.sample_line(Line::Data(4));
        let d5 = self.sample_line(Line::Data(5));
        let d6 = self.sample_line(Line::Data(6));
        let d7 = self.sample_line(Line::Data(7));
        self.wait_ns(ENABLE_PULSE_WIDTH);
        self.set_line(Line::Enable, Level::Low);
        self.wait_ns(DATA_HOLD_TIME);
        let nibble = nibble_of_levels(d4, d5, d6, d7);
        assert(final(self).events() =~= old(self).events() + read_nibble_events(nibble));
        nibble
    }

    /// Sends a byte as two nibbles, then waits the command execution time.
    fn write_byte(&mut self, byte: u8)
        requires
            old(self).linked(),
        ensures
            final(self).linked(),
            final(self).same_setup(*old(self)),
            final(self).events() == old(self).events() + send_byte_events(byte),
    {
        self.write_nibble(byte >> 4);
        self.write_nibble(byte & 0x0f);
        self.wait_us(COMMAND_EXECUTION_TIME);
        assert(final(self).events() =~= old(self).events() + send_byte_events(byte));
    }

    /// Receives a byte as two nibbles, upper first.
    fn read_byte(&mut self) -> (r: u8)
        requires
            old(self).linked(),
        ensures
            final(self).linked(),
            final(self).same_setup(*old(self)),
            final(self).events() == old(self).events() + receive_byte_events(r),
    {
        self.set_line_direction(Line::Data(4), Direction::In);
        self.set_line_direction(Line::Data(5), Direction::In);
        self.set_line_direction(Line::Data(6), Direction::In);
        self.set_line_direction(Line::Data(7), Direction::In);
        let upper = self.read_nibble();
        let lower = self.read_nibble();
        self.set_line_direction(Line::Data(4), Direction::Out);
        self.set_line_direction(Line::Data(5), Direction::Out);
        self.set_line_direction(Line::Data(6), Direction::Out);
        self.set_line_direction(Line::Data(7), Direction::Out);
        let byte = (upper << 4) | (lower & 0x0f);
        proof {
            lemma_join_nibbles(upper, lower);
        }
        assert(final(self).events() =~= old(self).events() + receive_byte_events(byte));
        byte
    }

    /// Sends one instruction or data byte: read/write low, register select by kind, the two
    /// nibbles, then the command execution time.
    fn write(&mut self, mode: WriteMode)
        requires
            old(self).linked(),
        ensures
            final(self).linked(),
            final(self).same_setup(*old(self)),
            final(self).events() == old(self).events() + send_events(mode),
    {
        let (level, value) = mode.level_and_value();
        self.set_line(Line::ReadWrite, Level::Low);
        self.set_line(Line::RegisterSelect, level);
        self.write_byte(value);
        assert(final(self).events() =~= old(self).events() + send_events(mode));
    }

    /// Sends one synchronisation instruction of the power-on sequence, waiting after each
    /// nibble as the controller, still in 8-bit mode, executes it as a whole instruction.
    fn write_init(&mut self, mode: WriteMode)
        requires
            old(self).linked(),
        ensures
            final(self).linked(),
            final(self).same_setup(*old(self)),
            final(self).events() == old(self).events() + send_init_events(mode),
    {
        let (level, value) = mode.level_and_value();
        self.set_line(Line::ReadWrite, Level::Low);
        self.set_line(Line::RegisterSelect, level);
        self.write_nibble(value >> 4);
        self.wait_ms(SYNC_INSTRUCTION_TIME);
        self.write_nibble(value & 0x0f);
        self.wait_us(SYNC_EXECUTION_TIME);
        assert(final(self).events() =~= old(self).events() + send_init_events(mode));
    }

    /// Reads one byte of the given kind: read/write high, register select by kind, the two
    /// nibbles, then read/write back to low.
    fn read(&mut self, mode: ReadMode) -> (r: u8)
        requires
            old(self).linked(),
        ensures
            final(self).linked(),
            final(self).same_setup(*old(self)),
            final(self).events() == old(self).events() + receive_events(mode, r),
    {
        self.set_line(Line::ReadWrite, Level::High);
        self.set_line(Line::RegisterSelect, mode.register_select());
        let byte = self.read_byte();
        self.set_line(Line::ReadWrite, Level::Low);
        assert(final(self).events() =~= old(self).events() + receive_events(mode, byte));
        byte
    }

    /// Initializes every pin as an output, then waits until the controller has powered up.
    fn setup(&mut self)
        requires
            old(self).linked(),
        ensures
            final(self).linked(),
            final(self).same_setup(*old(self)),
            final(self).events() == old(self).events() + init_events(),
    {
        self.configure_line(Line::RegisterSelect);
        self.configure_line(Line::ReadWrite);
        self.configure_line(Line::Enable);
        self.configure_line(Line::Data(4));
        self.configure_line(Line::Data(5));
        self.configure_line(Line::Data(6));
        self.configure_line(Line::Data(7));
        self.wait_ms(POWER_ON_TIME);
        assert(final(self).events() =~= old(self).events() + init_events());
    }
}

impl<RS, R, E, T, P4, P5, P6, P7> Init for ParallelConnection<
    RS,
    R,
    E,
    DataPins4Lines<P4, P5, P6, P7>,
    T,
> where
    RS: DisplayHardwareLayer,
    R: DisplayHardwareLayer,
    E: DisplayHardwareLayer,
    P4: DisplayHardwareLayer,
    P5: DisplayHardwareLayer,
    P6: DisplayHardwareLayer,
    P7: DisplayHardwareLayer,
    T: Delay,
 {
    fn init(&mut self) {
        self.setup();
        self.finish(Transaction::Init);
    }
}

impl<RS, R, E, T, P4, P5, P6, P7> SendInit for ParallelConnection<
    RS,
    R,
    E,
    DataPins4Lines<P4, P5, P6, P7>,
    T,
> where
    RS: DisplayHardwareLayer,
    R: DisplayHardwareLayer,
    E: DisplayHardwareLayer,
    P4: DisplayHardwareLayer,
    P5: DisplayHardwareLayer,
    P6: DisplayHardwareLayer,
    P7: DisplayHardwareLayer,
    T: Delay,
 {
    fn send_init(&mut self, mode: WriteMode) {
        self.write_init(mode);
        self.finish(Transaction::SendInit(mode));
    }
}

impl<RS, R, E, T, P4, P5, P6, P7> Send for ParallelConnection<
    RS,
    R,
    E,
    DataPins4Lines<P4, P5, P6, P7>,
    T,
> where
    RS: DisplayHardwareLayer,
    R: DisplayHardwareLayer,
    E: DisplayHardwareLayer,
    P4: DisplayHardwareLayer,
    P5: DisplayHardwareLayer,
    P6: DisplayHardwareLayer,
    P7: DisplayHardwareLayer,
    T: Delay,
 {
    fn send(&mut self, mode: WriteMode) {
        self.write(mode);
        self.finish(Transaction::Send(mode));
    }
}

impl<RS, R, E, T, P4, P5, P6, P7> Receive for ParallelConnection<
    RS,
    R,
    E,
    DataPins4Lines<P4, P5, P6, P7>,
    T,
> where
    RS: DisplayHardwareLayer,
    R: DisplayHardwareLayer,
    E: DisplayHardwareLayer,
    P4: DisplayHardwareLayer,
    P5: DisplayHardwareLayer,
    P6: DisplayHardwareLayer,
    P7: DisplayHardwareLayer,
    T: Delay,
 {
    fn receive(&mut self, mode: ReadMode) -> (r: u8) {
        let byte = self.read(mode);
        self.finish(Transaction::Receive(mode, byte));
        byte
    }
}

impl<RS, R, E, T, P4, P5, P6, P7> SendRaw for ParallelConnection<
    RS,
    R,
    E,
    DataPins4Lines<P4, P5, P6, P7>,
    T,
> where
    RS: DisplayHardwareLayer,
    R: DisplayHardwareLayer,
    E: DisplayHardwareLayer,
    P4: DisplayHardwareLayer,
    P5: DisplayHardwareLayer,
    P6: DisplayHardwareLayer,
    P7: DisplayHardwareLayer,
    T: Delay,
 {
    fn send_byte(&mut self, byte: u8) {
        self.write_byte(byte);
        self.finish(Transaction::SendByte(byte));
    }
}

impl<RS, R, E, T, P4, P5, P6, P7> ReceiveRaw for ParallelConnection<
    RS,
    R,
    E,
    DataPins4Lines<P4, P5, P6, P7>,
    T,
> where
    RS: DisplayHardwareLayer,
    R: DisplayHardwareLayer,
    E: DisplayHardwareLayer,
    P4: DisplayHardwareLayer,
    P5: DisplayHardwareLayer,
    P6: DisplayHardwareLayer,
    P7: DisplayHardwareLayer,
    T: Delay,
 {
    fn receive_byte(&mut self) -> (r: u8) {
        let byte = self.read_byte();
        self.finish(Transaction::ReceiveByte(byte));
        byte
    }
}

impl<RS, R, E, T, P0, P1, P2, P3, P4, P5, P6, P7> ParallelConnection<
    RS,
    R,
    E,
    DataPins8Lines<P0, P1, P2, P3, P4, P5, P6, P7>,
    T,
> where
    RS: DisplayHardwareLayer,
    R: DisplayHardwareLayer,
    E: DisplayHardwareLayer,
    P0: DisplayHardwareLayer,
    P1: DisplayHardwareLayer,
    P2: DisplayHardwareLayer,
    P3: DisplayHardwareLayer,
    P4: DisplayHardwareLayer,
    P5: DisplayHardwareLayer,
    P6: DisplayHardwareLayer,
    P7: DisplayHardwareLayer,
    T: Delay,
 {
    /// Drives one line to a level.
    fn set_line(&mut self, line: Line, level: Level)
        requires
            old(self).linked(),
            is_8bit_line(line),
        ensures
            final(self).linked(),
            final(self).same_setup(*old(self)),
            final(self).events() == old(self).events().push(BusEvent::SetLevel(line, level)),
    {
        let ghost before = *self;
        match line {
            Line::RegisterSelect => self.register_select.set_level(level),
            Line::ReadWrite => self.read.set_level(level),
            Line::Enable => self.enable.set_level(level),
            Line::Data(0) => self.data.data0.set_level(level),
            Line::Data(1) => self.data.data1.set_level(level),
            Line::Data(2) => self.data.data2.set_level(level),
            Line::Data(3) => self.data.data3.set_level(level),
            Line::Data(4) => self.data.data4.set_level(level),
            Line::Data(5) => self.data.data5.set_level(level),
            Line::Data(6) => self.data.data6.set_level(level),
            Line::Data(_) => self.data.data7.set_level(level),
        }
        self.events = Ghost(self.events@.push(BusEvent::SetLevel(line, level)));
        proof {
            Self::lemma_record(before, *self, BusEvent::SetLevel(line, level));
        }
    }

    /// Switches one line to a direction.
    fn set_line_direction(&mut self, line: Line, direction: Direction)
        requires
            old(self).linked(),
            is_8bit_line(line),
        ensures
            final(self).linked(),
            final(self).same_setup(*old(self)),
            final(self).events() == old(self).events().push(
                BusEvent::SetDirection(line, direction),
            ),
    {
        let ghost before = *self;
        match line {
            Line::RegisterSelect => self.register_select.set_direction(direction),
            Line::ReadWrite => self.read.set_direction(direction),
            Line::Enable => self.enable.set_direction(direction),
            Line::Data(0) => self.data.data0.set_direction(direction),
            Line::Data(1) => self.data.data1.set_direction(direction),
            Line::Data(2) => self.data.data2.set_direction(direction),
            Line::Data(3) => self.data.data3.set_direction(direction),
            Line::Data(4) => self.data.data4.set_direction(direction),
            Line::Data(5) => self.data.data5.set_direction(direction),
            Line::Data(6) => self.data.data6.set_direction(direction),
            Line::Data(_) => self.data.data7.set_direction(direction),
        }
        self.events = Ghost(self.events@.push(BusEvent::SetDirection(line, direction)));
        proof {
            Self::lemma_record(before, *self, BusEvent::SetDirection(line, direction));
        }
    }

    /// Initializes the pin of one line.
    fn configure_line(&mut self, line: Line)
        requires
            old(self).linked(),
            is_8bit_line(line),
        ensures
            final(self).linked(),
            final(self).same_setup(*old(self)),
            final(self).events() == old(self).events() + configure_events(line),
    {
        let ghost before = *self;
        match line {
            Line::RegisterSelect => self.register_select.init(),
            Line::ReadWrite => self.read.init(),
            Line::Enable => self.enable.init(),
            Line::Data(0) => self.data.data0.init(),
            Line::Data(1) => self.data.data1.init(),
            Line::Data(2) => self.data.data2.init(),
            Line::Data(3) => self.data.data3.init(),
            Line::Data(4) => self.data.data4.init(),
            Line::Data(5) => self.data.data5.init(),
            Line::Data(6) => self.data.data6.init(),
            Line::Data(_) => self.data.data7.init(),
        }
        self.events = Ghost(self.events@.push(BusEvent::Configure(line)));
        proof {
            Self::lemma_record(before, *self, BusEvent::Configure(line));
        }
        self.set_line_direction(line, Direction::Out);
        assert(final(self).events() =~= old(self).events() + configure_events(line));
    }

    /// Reads the level of one line.
    fn sample_line(&mut self, line: Line) -> (r: Level)
        requires
            old(self).linked(),
            is_8bit_line(line),
        ensures
            final(self).linked(),
            final(self).same_setup(*old(self)),
            final(self).events() == old(self).events().push(BusEvent::Sample(line, r)),
    {
        let ghost before = *self;
        let value = match line {
            Line::RegisterSelect => self.register_select.get_value(),
            Line::ReadWrite => self.read.get_value(),
            Line::Enable => self.enable.get_value(),
            Line::Data(0) => self.data.data0.get_value(),
            Line::Data(1) => self.data.data1.get_value(),
            Line::Data(2) => self.data.data2.get_value(),
            Line::Data(3) => self.data.data3.get_value(),
            Line::Data(4) => self.data.data4.get_value(),
            Line::Data(5) => self.data.data5.get_value(),
            Line::Data(6) => self.data.data6.get_value(),
            Line::Data(_) => self.data.data7.get_value(),
        };
        let level = if value == 0 {
            Level::Low
        } else {
            Level::High
        };
        self.events = Ghost(self.events@.push(BusEvent::Sample(line, level)));
        proof {
            Self::lemma_record(before, *self, BusEvent::Sample(line, level));
        }
        level
    }

    /// Switches all eight data lines to a direction.
    fn set_data_direction(&mut self, direction: Direction)
        requires
            old(self).linked(),
        ensures
            final(self).linked(),
            final(self).same_setup(*old(self)),
            final(self).events() == old(self).events() + data8_direction_events(direction),
    {
        self.set_line_direction(Line::Data(0), direction);
        self.set_line_direction(Line::Data(1), direction);
        self.set_line_direction(Line::Data(2), direction);
        self.set_line_direction(Line::Data(3), direction);
        self.set_line_direction(Line::Data(4), direction);
        self.set_line_direction(Line::Data(5), direction);
        self.set_line_direction(Line::Data(6), direction);
        self.set_line_direction(Line::Data(7), direction);
        assert(final(self).events() =~= old(self).events() + data8_direction_events(direction));
    }

    /// Drives data lines 0 to 7 with the bits of a byte.
    fn drive_data8(&mut self, byte: u8)
        requires
            old(self).linked(),
        ensures
            final(self).linked(),
            final(self).same_setup(*old(self)),
            final(self).events() == old(self).events() + drive_data8_events(byte_levels(byte)),
    {
        self.set_line(Line::Data(0), level_of_bit(byte, 0));
        self.set_line(Line::Data(1), level_of_bit(byte, 1));
        self.set_line(Line::Data(2), level_of_bit(byte, 2));
        self.set_line(Line::Data(3), level_of_bit(byte, 3));
        self.set_line(Line::Data(4), level_of_bit(byte, 4));
        self.set_line(Line::Data(5), level_of_bit(byte, 5));
        self.set_line(Line::Data(6), level_of_bit(byte, 6));
        self.set_line(Line::Data(7), level_of_bit(byte, 7));
        assert(final(self).events() =~= old(self).events() + drive_data8_events(
            byte_levels(byte),
        ));
    }

    /// Reads data lines 0 to 7: lines 0 to 3 in the first half of the result, 4 to 7 in the
    /// second.
    fn sample_data8(&mut self) -> (r: ([Level; 4], [Level; 4]))
        requires
            old(self).linked(),
        ensures
            final(self).linked(),
            final(self).same_setup(*old(self)),
            final(self).events() == old(self).events() + sample_data8_events(r.0@ + r.1@),
    {
        let d0 = self.sample_line(Line::Data(0));
        let d1 = self.sample_line(Line::Data(1));
        let d2 = self.sample_line(Line::Data(2));
        let d3 = self.sample_line(Line::Data(3));
        let d4 = self.sample_line(Line::Data(4));
        let d5 = self.sample_line(Line::Data(5));
        let d6 = self.sample_line(Line::Data(6));
        let d7 = self.sample_line(Line::Data(7));
        let r = ([d0, d1, d2, d3], [d4, d5, d6, d7]);
        assert(final(self).events() =~= old(self).events() + sample_data8_events(r.0@ + r.1@));
        r
    }

    /// Hands a whole byte to the controller in a single enable pulse.
    fn write_byte8(&mut self, byte: u8)
        requires
            old(self).linked(),
        ensures
            final(self).linked(),
            final(self).same_setup(*old(self)),
            final(self).events() == old(self).events() + write_byte8_events(byte),
    {
        self.wait_ns(ADDRESS_SETUP_TIME);
        self.set_line(Line::Enable, Level::High);
        self.drive_data8(byte);
        self.wait_ns(ENABLE_PULSE_WIDTH);
        self.set_line(Line::Enable, Level::Low);
        self.wait_ns(DATA_HOLD_TIME);
        assert(final(self).events() =~= old(self).events() + write_byte8_events(byte));
    }

    /// Takes a whole byte from the controller: data lines to input, one enable pulse, data
    /// lines back to output.
    fn read_byte8(&mut self) -> (r: u8)
        requires
            old(self).linked(),
        ensures
            final(self).linked(),
            final(self).same_setup(*old(self)),
            final(self).events() == old(self).events() + receive_byte8_events(r),
    {
        self.set_data_direction(Direction::In);
        self.wait_ns(ADDRESS_SETUP_TIME);
        self.set_line(Line::Enable, Level::High);
        let (lower, upper) = self.sample_data8();
        self.wait_ns(ENABLE_PULSE_WIDTH);
        self.set_line(Line::Enable, Level::Low);
        self.wait_ns(DATA_HOLD_TIME);
        self.set_data_direction(Direction::Out);
        let byte = byte_of_levels(lower, upper);
        assert(final(self).events() =~= old(self).events() + receive_byte8_events(byte));
        byte
    }

    /// Sends one instruction or data byte in 8-bit mode: read/write low, register select by
    /// kind, one enable pulse, then the command execution time.
    fn write(&mut self, mode: WriteMode)
        requires
            old(self).linked(),
        ensures
            final(self).linked(),
            final(self).same_setup(*old(self)),
            final(self).events() == old(self).events() + send8_events(mode),
    {
        let (level, value) = mode.level_and_value();
        self.set_line(Line::ReadWrite, Level::Low);
        self.set_line(Line::RegisterSelect, level);
        self.write_byte8(value);
        self.wait_us(COMMAND_EXECUTION_TIME);
        assert(final(self).events() =~= old(self).events() + send8_events(mode));
    }

    /// Sends one synchronisation instruction of the power-on sequence in 8-bit mode, then
    /// waits until the controller has executed it.
    fn write_init(&mut self, mode: WriteMode)
        requires
            old(self).linked(),
        ensures
            final(self).linked(),
            final(self).same_setup(*old(self)),
            final(self).events() == old(self).events() + send_init8_events(mode),
    {
        let (level, value) = mode.level_and_value();
        self.set_line(Line::ReadWrite, Level::Low);
        self.set_line(Line::RegisterSelect, level);
        self.write_byte8(value);
        self.wait_ms(SYNC_INSTRUCTION_TIME);
        assert(final(self).events() =~= old(self).events() + send_init8_events(mode));
    }

    /// Reads one byte of the given kind in 8-bit mode: read/write high, register select by
    /// kind, one enable pulse, then read/write back to low.
    fn read(&mut self, mode: ReadMode) -> (r: u8)
        requires
            old(self).linked(),
        ensures
            final(self).linked(),
            final(self).same_setup(*old(self)),
            final(self).events() == old(self).events() + receive8_events(mode, r),
    {
        self.set_line(Line::ReadWrite, Level::High);
        self.set_line(Line::RegisterSelect, mode.register_select());
        let byte = self.read_byte8();
        self.set_line(Line::ReadWrite, Level::Low);
        assert(final(self).events() =~= old(self).events() + receive8_events(mode, byte));
        byte
    }

    /// Initializes every pin as an output, then waits until the controller has powered up.
    fn setup(&mut self)
        requires
            old(self).linked(),
        ensures
            final(self).linked(),
            final(self).same_setup(*old(self)),
            final(self).events() == old(self).events() + init8_events(),
    {
        self.configure_line(Line::RegisterSelect);
        self.configure_line(Line::ReadWrite);
        self.configure_line(Line::Enable);
        self.configure_line(Line::Data(0));
        self.configure_line(Line::Data(1));
        self.configure_line(Line::Data(2));
        self.configure_line(Line::Data(3));
        self.configure_line(Line::Data(4));
        self.configure_line(Line::Data(5));
        self.configure_line(Line::Data(6));
        self.configure_line(Line::Data(7));
        self.wait_ms(POWER_ON_TIME);
        assert(final(self).events() =~= old(self).events() + init8_events());
    }
}

impl<RS, R, E, T, P0, P1, P2, P3, P4, P5, P6, P7> Init for ParallelConnection<
    RS,
    R,
    E,
    DataPins8Lines<P0, P1, P2, P3, P4, P5, P6, P7>,
    T,
> where
    RS: DisplayHardwareLayer,
    R: DisplayHardwareLayer,
    E: DisplayHardwareLayer,
    P0: DisplayHardwareLayer,
    P1: DisplayHardwareLayer,
    P2: DisplayHardwareLayer,
    P3: DisplayHardwareLayer,
    P4: DisplayHardwareLayer,
    P5: DisplayHardwareLayer,
    P6: DisplayHardwareLayer,
    P7: DisplayHardwareLayer,
    T: Delay,
 {
    fn init(&mut self) {
        self.setup();
        self.finish(Transaction::Init);
    }
}

impl<RS, R, E, T, P0, P1, P2, P3, P4, P5, P6, P7> SendInit for ParallelConnection<
    RS,
    R,
    E,
    DataPins8Lines<P0, P1, P2, P3, P4, P5, P6, P7>,
    T,
> where
    RS: DisplayHardwareLayer,
    R: DisplayHardwareLayer,
    E: DisplayHardwareLayer,
    P0: DisplayHardwareLayer,
    P1: DisplayHardwareLayer,
    P2: DisplayHardwareLayer,
    P3: DisplayHardwareLayer,
    P4: DisplayHardwareLayer,
    P5: DisplayHardwareLayer,
    P6: DisplayHardwareLayer,
    P7: DisplayHardwareLayer,
    T: Delay,
 {
    fn send_init(&mut self, mode: WriteMode) {
        self.write_init(mode);
        self.finish(Transaction::SendInit(mode));
    }
}

impl<RS, R, E, T, P0, P1, P2, P3, P4, P5, P6, P7> Send for ParallelConnection<
    RS,
    R,
    E,
    DataPins8Lines<P0, P1, P2, P3, P4, P5, P6, P7>,
    T,
> where
    RS: DisplayHardwareLayer,
    R: DisplayHardwareLayer,
    E: DisplayHardwareLayer,
    P0: DisplayHardwareLayer,
    P1: DisplayHardwareLayer,
    P2: DisplayHardwareLayer,
    P3: DisplayHardwareLayer,
    P4: DisplayHardwareLayer,
    P5: DisplayHardwareLayer,
    P6: DisplayHardwareLayer,
    P7: DisplayHardwareLayer,
    T: Delay,
 {
    fn send(&mut self, mode: WriteMode) {
        self.write(mode);
        self.finish(Transaction::Send(mode));
    }
}

impl<RS, R, E, T, P0, P1, P2, P3, P4, P5, P6, P7> Receive for ParallelConnection<
    RS,
    R,
    E,
    DataPins8Lines<P0, P1, P2, P3, P4, P5, P6, P7>,
    T,
> where
    RS: DisplayHardwareLayer,
    R: DisplayHardwareLayer,
    E: DisplayHardwareLayer,
    P0: DisplayHardwareLayer,
    P1: DisplayHardwareLayer,
    P2: DisplayHardwareLayer,
    P3: DisplayHardwareLayer,
    P4: DisplayHardwareLayer,
    P5: DisplayHardwareLayer,
    P6: DisplayHardwareLayer,
    P7: DisplayHardwareLayer,
    T: Delay,
 {
    fn receive(&mut self, mode: ReadMode) -> (r: u8) {
        let byte = self.read(mode);
        self.finish(Transaction::Receive(mode, byte));
        byte
    }
}

impl<RS, R, E, T, P0, P1, P2, P3, P4, P5, P6, P7> SendRaw for ParallelConnection<
    RS,
    R,
    E,
    DataPins8Lines<P0, P1, P2, P3, P4, P5, P6, P7>,
    T,
> where
    RS: DisplayHardwareLayer,
    R: DisplayHardwareLayer,
    E: DisplayHardwareLayer,
    P0: DisplayHardwareLayer,
    P1: DisplayHardwareLayer,
    P2: DisplayHardwareLayer,
    P3: DisplayHardwareLayer,
    P4: DisplayHardwareLayer,
    P5: DisplayHardwareLayer,
    P6: DisplayHardwareLayer,
    P7: DisplayHardwareLayer,
    T: Delay,
 {
    fn send_byte(&mut self, byte: u8) {
        self.write_byte8(byte);
        self.wait_us(COMMAND_EXECUTION_TIME);
        assert(self.events() =~= old(self).events() + send_byte8_events(byte));
        self.finish(Transaction::SendByte(byte));
    }
}

impl<RS, R, E, T, P0, P1, P2, P3, P4, P5, P6, P7> ReceiveRaw for ParallelConnection<
    RS,
    R,
    E,
    DataPins8Lines<P0, P1, P2, P3, P4, P5, P6, P7>,
    T,
> where
    RS: DisplayHardwareLayer,
    R: DisplayHardwareLayer,
    E: DisplayHardwareLayer,
    P0: DisplayHardwareLayer,
    P1: DisplayHardwareLayer,
    P2: DisplayHardwareLayer,
    P3: DisplayHardwareLayer,
    P4: DisplayHardwareLayer,
    P5: DisplayHardwareLayer,
    P6: DisplayHardwareLayer,
    P7: DisplayHardwareLayer,
    T: Delay,
 {
    fn receive_byte(&mut self) -> (r: u8) {
        let byte = self.read_byte8();
        self.finish(Transaction::ReceiveByte(byte));
        byte
    }
}

} // verus!
