//! The display engine: tracks the cursor address and the active RAM bank, and turns seeks,
//! shifts, writes and reads into transactions on its connection.
use core::marker::PhantomData;

use crate::address::{Address, CgRam, DdRam, Overflow, CGRAM_UPPER_BOUND, DDRAM_UPPER_BOUND};
use crate::display_control::DisplayControlBuilder;
use crate::entry_mode::EntryModeBuilder;
use crate::function_set::FunctionSetBuilder;
use crate::hal::{
    Connection, Init, ReadMode, Receive, Send, SendInit, Transaction, WriteMode,
    FIRST_4BIT_INIT_INSTRUCTION, SECOND_4BIT_INIT_INSTRUCTION,
};
use crate::lines::Home;
use vstd::prelude::*;
use vstd::string::StringSliceAdditionalSpecFns;

verus! {

/// The number of characters a line of the display shows.
pub const LCD_WIDTH: usize = 16;

/// The clear display instruction.
pub const CLEAR_DISPLAY: u8 = 0b0000_0001;

/// Opcode bit of the cursor or display shift instruction (bit 4).
pub const SHIFT: u8 = 0b0001_0000;

/// Bit 3 of a shift instruction: the cursor moves.
pub const SHIFT_TARGET_CURSOR: u8 = 0b0000_0000;

/// Bit 3 of a shift instruction: the whole display moves.
pub const SHIFT_TARGET_DISPLAY: u8 = 0b0000_1000;

/// Bit 2 of a shift instruction: to the right.
pub const SHIFT_RIGHT: u8 = 0b0000_0100;

/// Bit 2 of a shift instruction: to the left.
pub const SHIFT_LEFT: u8 = 0b0000_0000;

/// Opcode bit of the set display data RAM address instruction (bit 7).
pub const SEEK_DDRAM_CMD: u8 = 0b1000_0000;

/// Opcode bit of the set character generator RAM address instruction (bit 6).
pub const SEEK_CGRAM_CMD: u8 = 0b0100_0000;

/// Bit 7 of the byte read with the busy flag: the controller is still busy.
pub const BUSY_FLAG: u8 = 0b1000_0000;

/// Bits 0 to 6 of the byte read with the busy flag: the controller's address counter.
pub const ADDRESS_COUNTER: u8 = 0b0111_1111;

/// Enumeration of possible methods to shift a cursor or display.
pub enum ShiftTo {
    /// Shifts to the right by the given offset.
    Right(u8),
    /// Shifts to the left by the given offset.
    Left(u8),
}

impl ShiftTo {
    /// The number of single steps to shift.
    pub open spec fn spec_offset(&self) -> u8 {
        match *self {
            ShiftTo::Right(offset) => offset,
            ShiftTo::Left(offset) => offset,
        }
    }

    /// The direction bit of the shift instruction.
    pub open spec fn spec_direction_bits(&self) -> u8 {
        match *self {
            ShiftTo::Right(_) => SHIFT_RIGHT,
            ShiftTo::Left(_) => SHIFT_LEFT,
        }
    }

    fn as_offset_and_raw_direction(&self) -> (r: (u8, u8))
        ensures
            r == (self.spec_offset(), self.spec_direction_bits()),
    {
        match *self {
            ShiftTo::Right(offset) => (offset, SHIFT_RIGHT),
            ShiftTo::Left(offset) => (offset, SHIFT_LEFT),
        }
    }
}

/// Enumeration of possible methods to seek within the display data RAM (DDRAM).
pub enum SeekFrom<T> {
    /// Sets the cursor position to `Home` plus the provided number of bytes.
    Home(u8),
    /// Sets the cursor to the current position plus the specified number of bytes.
    Current(u8),
    /// Sets the cursor position to the given line plus the specified number of bytes.
    Line { line: T, offset: u8 },
}

/// Enumeration of possible methods to set an address in display data RAM (DDRAM).
pub enum SetFrom<T> {
    /// Sets the cursor position to `Home` plus the provided number of bytes.
    Home(u8),
    /// Sets the cursor position to the given line plus the specified number of bytes.
    Line { line: T, offset: u8 },
}

/// Enumeration of possible methods to seek within the character generator RAM (CGRAM).
pub enum SeekCgRamFrom {
    /// Sets the cursor position to `Home` plus the provided number of bytes.
    Home(u8),
    /// Sets the cursor to the current position plus the specified number of bytes.
    Current(u8),
}

/// The display data RAM position a `SetFrom` stands for.
pub open spec fn set_from_as_seek<T>(pos: SetFrom<T>) -> SeekFrom<T> {
    match pos {
        SetFrom::Home(offset) => SeekFrom::Home(offset),
        SetFrom::Line { line, offset } => SeekFrom::Line { line, offset },
    }
}

impl<T> From<SetFrom<T>> for SeekFrom<T> {
    fn from(pos: SetFrom<T>) -> (r: Self) {
        match pos {
            SetFrom::Home(offset) => SeekFrom::Home(offset),
            SetFrom::Line { line, offset } => SeekFrom::Line { line, offset },
        }
    }
}

impl<T> vstd::std_specs::convert::FromSpecImpl<SetFrom<T>> for SeekFrom<T> {
    open spec fn obeys_from_spec() -> bool {
        true
    }

    open spec fn from_spec(pos: SetFrom<T>) -> Self {
        set_from_as_seek(pos)
    }
}

/// The address `count` steps after `cursor` in the bank `RT`.
pub open spec fn advanced<RT: Overflow>(cursor: u8, count: nat) -> u8 {
    ((cursor + count) % (RT::spec_upper_bound() as int)) as u8
}

/// The display data RAM address a seek to `pos` lands on, from the cursor address `cursor`.
pub open spec fn ddram_seek_target<U: Home>(cursor: u8, pos: SeekFrom<U>) -> u8 {
    let (start, offset) = match pos {
        SeekFrom::Home(offset) => (Address::<DdRam>::spec_from_raw(U::spec_home()), offset),
        SeekFrom::Current(offset) => (cursor, offset),
        SeekFrom::Line { line, offset } => (
            Address::<DdRam>::spec_from_raw(line.spec_line_address()),
            offset,
        ),
    };
    Address::<DdRam>::spec_add(start, Address::<DdRam>::spec_from_raw(offset))
}

/// The character generator RAM address a seek to `pos` lands on, from the cursor address
/// `cursor`.
pub open spec fn cgram_seek_target(cursor: u8, pos: SeekCgRamFrom) -> u8 {
    match pos {
        SeekCgRamFrom::Home(offset) => Address::<CgRam>::spec_from_raw(offset),
        SeekCgRamFrom::Current(offset) => Address::<CgRam>::spec_add(
            cursor,
            Address::<CgRam>::spec_from_raw(offset),
        ),
    }
}

/// The instruction that sets the display data RAM address.
pub open spec fn ddram_seek_command(address: u8) -> u8 {
    SEEK_DDRAM_CMD | address
}

/// The instruction that sets the character generator RAM address.
pub open spec fn cgram_seek_command(address: u8) -> u8 {
    SEEK_CGRAM_CMD | address
}

/// The shift instruction for a target (cursor or display) and a direction bit.
pub open spec fn shift_command(target: u8, direction: u8) -> u8 {
    SHIFT | target | direction
}

/// The same transaction `count` times.
pub open spec fn repeated(transaction: Transaction, count: nat) -> Seq<Transaction> {
    Seq::new(count, |i: int| transaction)
}

/// The bytes of a message that fit on one line.
pub open spec fn visible_part(bytes: Seq<u8>) -> Seq<u8> {
    if bytes.len() <= LCD_WIDTH {
        bytes
    } else {
        bytes.take(LCD_WIDTH as int)
    }
}

/// One data write per byte.
pub open spec fn data_writes(bytes: Seq<u8>) -> Seq<Transaction> {
    Seq::new(bytes.len(), |i: int| Transaction::Send(WriteMode::Data(bytes[i])))
}

/// The busy flag and the address counter held by a byte read with the busy flag.
pub open spec fn busy_flag_of(byte: u8) -> (bool, u8) {
    ((byte & BUSY_FLAG) != 0, byte & ADDRESS_COUNTER)
}

/// The power-on sequence: initialize the connection, send the two synchronisation
/// instructions, the function set instruction, then clear the display.
pub open spec fn init_transactions(function_set: u8) -> Seq<Transaction> {
    seq![
        Transaction::Init,
        Transaction::SendInit(WriteMode::Command(FIRST_4BIT_INIT_INSTRUCTION)),
        Transaction::SendInit(WriteMode::Command(SECOND_4BIT_INIT_INSTRUCTION)),
        Transaction::Send(WriteMode::Command(function_set)),
        Transaction::Send(WriteMode::Command(CLEAR_DISPLAY)),
    ]
}

/// Cursor tracking: after seeking `Home(0)` and writing two bytes, the tracked address is
/// home plus two, and a following seek to `Current(0)` sends the set address instruction for
/// exactly that address.
pub proof fn lemma_cursor_tracking<U: Home>(cursor: u8)
    requires
        cursor < DDRAM_UPPER_BOUND,
    ensures
        ({
            let home = ddram_seek_target::<U>(cursor, SeekFrom::Home(0));
            let written = advanced::<DdRam>(advanced::<DdRam>(home, 1), 1);
            &&& written == (U::spec_home() + 2) % (DDRAM_UPPER_BOUND as int)
            &&& ddram_seek_target::<U>(written, SeekFrom::Current(0)) == written
            &&& ddram_seek_command(ddram_seek_target::<U>(written, SeekFrom::Current(0)))
                == SEEK_DDRAM_CMD | written
        }),
{
    let b = DDRAM_UPPER_BOUND as int;
    let h = U::spec_home() as int;
    let home = ddram_seek_target::<U>(cursor, SeekFrom::Home(0));
    assert(home == h % b) by {
        vstd::arithmetic::div_mod::lemma_mod_bound(h, b);
        vstd::arithmetic::div_mod::lemma_small_mod((h % b) as nat, b as nat);
    }
    vstd::arithmetic::div_mod::lemma_add_mod_noop(h, 1, b);
    vstd::arithmetic::div_mod::lemma_add_mod_noop(h + 1, 1, b);
    vstd::arithmetic::div_mod::lemma_small_mod(1, b as nat);
    let written = advanced::<DdRam>(advanced::<DdRam>(home, 1), 1);
    assert(written == (h + 2) % b) by {
        vstd::arithmetic::div_mod::lemma_mod_bound(h % b + 1, b);
    }
    vstd::arithmetic::div_mod::lemma_mod_bound(h + 2, b);
    vstd::arithmetic::div_mod::lemma_small_mod(written as nat, b as nat);
}

/// Bank switch resets addressing: switching to character generator RAM from any display data
/// RAM address and seeking `Home(0)` sends the character generator prefix OR zero, and every
/// character generator seek carries that prefix and never the display data prefix.
pub proof fn lemma_bank_switch_addressing(address: u8, cursor: u8, pos: SeekCgRamFrom)
    requires
        cursor < CGRAM_UPPER_BOUND,
    ensures
        cgram_seek_command(
            cgram_seek_target(Address::<CgRam>::spec_from_raw(address), SeekCgRamFrom::Home(0)),
        ) == SEEK_CGRAM_CMD,
        cgram_seek_command(cgram_seek_target(cursor, pos)) & 0xc0 == SEEK_CGRAM_CMD,
{
    assert(0x40u8 | 0u8 == 0x40u8) by (bit_vector);
    let target = cgram_seek_target(cursor, pos);
    match pos {
        SeekCgRamFrom::Home(offset) => {
            vstd::arithmetic::div_mod::lemma_mod_bound(offset as int, 64);
        },
        SeekCgRamFrom::Current(offset) => {
            vstd::arithmetic::div_mod::lemma_mod_bound(offset as int, 64);
            vstd::arithmetic::div_mod::lemma_mod_bound(cursor + (offset as int % 64), 64);
        },
    }
    assert(target < 64);
    assert((0x40u8 | target) & 0xc0u8 == 0x40u8) by (bit_vector)
        requires
            target < 64,
    ;
}

/// A display working on display data RAM.
pub type DdRamDisplay<P, U> = Display<P, U, DdRam>;

/// A HD44780 compliant display.
///
/// It provides a high-level and hardware agnostic interface to controll a HD44780 compliant
/// liquid crystal display (LCD). `RT` is the RAM bank the display currently works on.
pub struct Display<P, U, RT: Overflow> {
    connection: P,
    cursor_address: Address<RT>,
    line_marker: PhantomData<U>,
}

impl<P: Connection, U> Display<P, U, DdRam> {
    /// Create a new `Display` using the given connection.
    pub fn new(connection: P) -> (r: Display<P, U, DdRam>)
        ensures
            r.cursor() == 0,
            r.connection() == connection,
            r.transactions() == connection.transactions(),
    {
        Display { connection, cursor_address: Address::from_raw(0), line_marker: PhantomData }
    }
}

impl<P, U, RT: Overflow> Display<P, U, RT> {
    /// The tracked cursor address in the active RAM bank.
    pub closed spec fn cursor(&self) -> u8 {
        self.cursor_address.value()
    }

    /// The connection the display talks through.
    pub closed spec fn connection(&self) -> P {
        self.connection
    }

    /// Gives the connection back.
    pub fn get_connection(self) -> (r: P)
        ensures
            r == self.connection(),
    {
        self.connection
    }
}

impl<P: Connection, U, RT: Overflow> Display<P, U, RT> {
    /// Every transaction the connection has carried out so far, oldest first.
    pub open spec fn transactions(&self) -> Seq<Transaction> {
        self.connection().transactions()
    }

    /// The connection is in a consistent state.
    pub open spec fn wf(&self) -> bool {
        self.connection().wf()
    }
}

impl<P, U, RT> Display<P, U, RT> where P: Init + SendInit + Send + Receive, U: Home, RT: Overflow {
    /// Hands one instruction or data byte to the connection.
    fn transmit(&mut self, mode: WriteMode)
        requires
            old(self).wf(),
        ensures
            final(self).wf(),
            final(self).cursor() == old(self).cursor(),
            final(self).transactions() == old(self).transactions().push(Transaction::Send(mode)),
    {
        self.connection.send(mode);
    }

    /// Moves the tracked address one step forward, as the controller does after a write or a
    /// read.
    fn step_cursor(&mut self)
        requires
            old(self).wf(),
        ensures
            final(self).wf(),
            final(self).cursor() == advanced::<RT>(old(self).cursor(), 1),
            final(self).transactions() == old(self).transactions(),
    {
        let one = Address::from_raw(1);
        self.cursor_address = self.cursor_address.wrapping_add(one);
        proof {
            RT::lemma_upper_bound_positive();
            vstd::arithmetic::div_mod::lemma_add_mod_noop_right(
                old(self).cursor() as int,
                1,
                RT::spec_upper_bound() as int,
            );
        }
    }

    /// Sets the entry mode of the display.
    pub fn set_entry_mode(&mut self, builder: &EntryModeBuilder)
        requires
            old(self).wf(),
        ensures
            final(self).wf(),
            final(self).cursor() == old(self).cursor(),
            final(self).transactions() == old(self).transactions().push(
                Transaction::Send(WriteMode::Command(builder.spec_command())),
            ),
    {
        let cmd = WriteMode::Command(builder.build_command());
        self.transmit(cmd);
    }

    /// Sets the display control settings.
    pub fn set_display_control(&mut self, builder: &DisplayControlBuilder)
        requires
            old(self).wf(),
        ensures
            final(self).wf(),
            final(self).cursor() == old(self).cursor(),
            final(self).transactions() == old(self).transactions().push(
                Transaction::Send(WriteMode::Command(builder.spec_command())),
            ),
    {
        let cmd = WriteMode::Command(builder.build_command());
        self.transmit(cmd);
    }

    /// Writes the given byte to data or character generator RAM, depending on the previous
    /// seek operation.
    pub fn write(&mut self, c: u8)
        requires
            old(self).wf(),
        ensures
            final(self).wf(),
            final(self).cursor() == advanced::<RT>(old(self).cursor(), 1),
            final(self).transactions() == old(self).transactions().push(
                Transaction::Send(WriteMode::Data(c)),
            ),
    {
        self.step_cursor();
        self.transmit(WriteMode::Data(c));
    }

    /// Reads a single byte from data RAM.
    pub fn read_byte(&mut self) -> (r: u8)
        requires
            old(self).wf(),
        ensures
            final(self).wf(),
            final(self).cursor() == advanced::<RT>(old(self).cursor(), 1),
            final(self).transactions() == old(self).transactions().push(
                Transaction::Receive(ReadMode::Data, r),
            ),
    {
        self.step_cursor();
        let byte = self.connection.receive(ReadMode::Data);
        byte
    }

    /// Writes the given message to data or character generator RAM, depending on the previous
    /// seek operation. Only the first `LCD_WIDTH` bytes are written.
    pub fn write_message(&mut self, msg: &str)
        requires
            old(self).wf(),
        ensures
            final(self).wf(),
            final(self).cursor() == advanced::<RT>(
                old(self).cursor(),
                visible_part(msg.spec_bytes()).len(),
            ),
            final(self).transactions() == old(self).transactions() + data_writes(
                visible_part(msg.spec_bytes()),
            ),
    {
        let bytes = msg.as_bytes();
        let n = if bytes.len() < LCD_WIDTH {
            bytes.len()
        } else {
            LCD_WIDTH
        };
        proof {
            use_type_invariant(&self.cursor_address);
            self.cursor_address.lemma_in_range();
            vstd::arithmetic::div_mod::lemma_small_mod(
                self.cursor() as nat,
                RT::spec_upper_bound() as nat,
            );
        }
        let ghost shown = visible_part(bytes@);
        assert(shown.len() == n);
        let mut i: usize = 0;
        while i < n
            invariant
                i <= n,
                n <= bytes@.len(),
                shown.len() == n,
                forall|k: int| 0 <= k < n ==> shown[k] == bytes@[k],
                self.wf(),
                self.cursor() == advanced::<RT>(old(self).cursor(), i as nat),
                self.transactions() == old(self).transactions() + data_writes(shown.take(i as int)),
            decreases n - i,
        {
            proof {
                RT::lemma_upper_bound_positive();
                vstd::arithmetic::div_mod::lemma_add_mod_noop(
                    old(self).cursor() + i,
                    1,
                    RT::spec_upper_bound() as int,
                );
                vstd::arithmetic::div_mod::lemma_add_mod_noop_right(
                    (old(self).cursor() + i) % (RT::spec_upper_bound() as int),
                    1,
                    RT::spec_upper_bound() as int,
                );
            }
            self.write(bytes[i]);
            assert(data_writes(shown.take(i as int)).push(Transaction::Send(WriteMode::Data(bytes@[i as int])))
                =~= data_writes(shown.take(i + 1)));
            i = i + 1;
        }
        assert(shown.take(n as int) =~= shown);
    }
}

impl<P, U> Display<P, U, DdRam> where P: Init + SendInit + Send + Receive, U: Home {
    /// Runs the controller's power-on sequence: brings it into 4-bit mode whatever state it
    /// powered up in, applies the function set settings and clears the display.
    pub fn init(&mut self, builder: &FunctionSetBuilder)
        requires
            old(self).wf(),
        ensures
            final(self).wf(),
            final(self).cursor() == old(self).cursor(),
            final(self).transactions() == old(self).transactions() + init_transactions(
                builder.spec_command(),
            ),
    {
        self.connection.init();
        let cmd = builder.build_command();
        self.init_by_instruction(WriteMode::Command(cmd));
        assert(final(self).transactions() =~= old(self).transactions() + init_transactions(
            builder.spec_command(),
        ));
    }

    fn init_by_instruction(&mut self, function_set: WriteMode)
        requires
            old(self).wf(),
        ensures
            final(self).wf(),
            final(self).cursor() == old(self).cursor(),
            final(self).transactions() == old(self).transactions() + seq![
                Transaction::SendInit(WriteMode::Command(FIRST_4BIT_INIT_INSTRUCTION)),
                Transaction::SendInit(WriteMode::Command(SECOND_4BIT_INIT_INSTRUCTION)),
                Transaction::Send(function_set),
                Transaction::Send(WriteMode::Command(CLEAR_DISPLAY)),
            ],
    {
        self.synchronize(WriteMode::Command(FIRST_4BIT_INIT_INSTRUCTION));
        self.synchronize(WriteMode::Command(SECOND_4BIT_INIT_INSTRUCTION));
        self.transmit(function_set);
        self.clear();
        assert(final(self).transactions() =~= old(self).transactions() + seq![
            Transaction::SendInit(WriteMode::Command(FIRST_4BIT_INIT_INSTRUCTION)),
            Transaction::SendInit(WriteMode::Command(SECOND_4BIT_INIT_INSTRUCTION)),
            Transaction::Send(function_set),
            Transaction::Send(WriteMode::Command(CLEAR_DISPLAY)),
        ]);
    }

    /// Hands one synchronisation instruction of the power-on sequence to the connection.
    fn synchronize(&mut self, mode: WriteMode)
        requires
            old(self).wf(),
        ensures
            final(self).wf(),
            final(self).cursor() == old(self).cursor(),
            final(self).transactions() == old(self).transactions().push(
                Transaction::SendInit(mode),
            ),
    {
        self.connection.send_init(mode);
    }

    /// Shifts the cursor to the left or the right by the given offset.
    ///
    /// **Note:** Consider to use [seek()](struct.Display.html#method.seek) for longer distances.
    pub fn shift_cursor(&mut self, direction: ShiftTo)
        requires
            old(self).wf(),
        ensures
            final(self).wf(),
            final(self).cursor() == match direction {
                ShiftTo::Right(offset) => Address::<DdRam>::spec_add(
                    old(self).cursor(),
                    Address::<DdRam>::spec_from_raw(offset),
                ),
                ShiftTo::Left(offset) => Address::<DdRam>::spec_sub(
                    old(self).cursor(),
                    Address::<DdRam>::spec_from_raw(offset),
                ),
            },
            final(self).transactions() == old(self).transactions() + repeated(
                Transaction::Send(
                    WriteMode::Command(
                        shift_command(SHIFT_TARGET_CURSOR, direction.spec_direction_bits()),
                    ),
                ),
                direction.spec_offset() as nat,
            ),
            direction.spec_offset() == 0 ==> final(self).cursor() == old(self).cursor()
                && final(self).transactions() == old(self).transactions(),
    {
        let (offset, raw_direction) = direction.as_offset_and_raw_direction();
        if offset == 0 {
            proof {
                use_type_invariant(&self.cursor_address);
                self.cursor_address.lemma_in_range();
                let b = DDRAM_UPPER_BOUND as int;
                let c = self.cursor() as int;
                assert((c + 0) % b == c && (c - 0 + b) % b == c) by {
                    vstd::arithmetic::div_mod::lemma_small_mod(c as nat, b as nat);
                    vstd::arithmetic::div_mod::lemma_mod_add_multiples_vanish(c, b);
                }
                assert(old(self).transactions() + repeated(
                    Transaction::Send(WriteMode::Command(shift_command(SHIFT_TARGET_CURSOR, raw_direction))),
                    0,
                ) =~= old(self).transactions());
            }
            return;
        }
        let step = Address::from_raw(offset);
        match direction {
            ShiftTo::Right(_) => self.cursor_address = self.cursor_address.wrapping_add(step),
            ShiftTo::Left(_) => self.cursor_address = self.cursor_address.wrapping_sub(step),
        }
        self.raw_shift(SHIFT_TARGET_CURSOR, offset, raw_direction);
    }

    /// Shifts the display to the right or the left by the given offset.
    ///
    /// Note that the first and second line will shift at the same time.
    ///
    /// When the displayed data is shifted repeatedly each line moves only horizontally.
    /// The second line display does not shift into the first line position.
    pub fn shift(&mut self, direction: ShiftTo)
        requires
            old(self).wf(),
        ensures
            final(self).wf(),
            final(self).cursor() == old(self).cursor(),
            final(self).transactions() == old(self).transactions() + repeated(
                Transaction::Send(
                    WriteMode::Command(
                        shift_command(SHIFT_TARGET_DISPLAY, direction.spec_direction_bits()),
                    ),
                ),
                direction.spec_offset() as nat,
            ),
    {
        let (offset, raw_direction) = direction.as_offset_and_raw_direction();
        self.raw_shift(SHIFT_TARGET_DISPLAY, offset, raw_direction);
    }

    /// Sends the shift instruction for `target` and `raw_direction` `offset` times.
    fn raw_shift(&mut self, target: u8, offset: u8, raw_direction: u8)
        requires
            old(self).wf(),
        ensures
            final(self).wf(),
            final(self).cursor() == old(self).cursor(),
            final(self).transactions() == old(self).transactions() + repeated(
                Transaction::Send(WriteMode::Command(shift_command(target, raw_direction))),
                offset as nat,
            ),
    {
        let cmd = SHIFT | target | raw_direction;
        let ghost step = Transaction::Send(WriteMode::Command(cmd));
        let mut i: u8 = 0;
        while i < offset
            invariant
                i <= offset,
                cmd == shift_command(target, raw_direction),
                step == Transaction::Send(WriteMode::Command(cmd)),
                self.wf(),
                self.cursor() == old(self).cursor(),
                self.transactions() == old(self).transactions() + repeated(step, i as nat),
            decreases offset - i,
        {
            self.transmit(WriteMode::Command(cmd));
            assert(old(self).transactions() + repeated(step, (i + 1) as nat) =~= (old(
                self,
            ).transactions() + repeated(step, i as nat)).push(step));
            i = i + 1;
        }
    }

    /// Clears the entire display, sets the cursor to the home position and undo all display
    /// shifts.
    ///
    /// It also sets the cursor's move direction to `Increment`.
    pub fn clear(&mut self)
        requires
            old(self).wf(),
        ensures
            final(self).wf(),
            final(self).cursor() == old(self).cursor(),
            final(self).transactions() == old(self).transactions().push(
                Transaction::Send(WriteMode::Command(CLEAR_DISPLAY)),
            ),
    {
        self.transmit(WriteMode::Command(CLEAR_DISPLAY));
    }

    /// Reads busy flag and the cursor's current address.
    pub fn read_busy_flag(&mut self) -> (r: (bool, u8))
        requires
            old(self).wf(),
        ensures
            final(self).wf(),
            final(self).cursor() == old(self).cursor(),
            exists|byte: u8|
                {
                    &&& final(self).transactions() == old(self).transactions().push(
                        Transaction::Receive(ReadMode::BusyFlag, byte),
                    )
                    &&& r == busy_flag_of(byte)
                },
    {
        let byte = self.connection.receive(ReadMode::BusyFlag);
        let busy_flag = (byte & BUSY_FLAG) != 0;
        let address = byte & ADDRESS_COUNTER;
        assert((busy_flag, address) == busy_flag_of(byte));
        (busy_flag, address)
    }

    /// Seeks to an offset in display data RAM.
    pub fn seek(&mut self, pos: SeekFrom<U>)
        requires
            old(self).wf(),
        ensures
            final(self).wf(),
            final(self).cursor() == ddram_seek_target(old(self).cursor(), pos),
            final(self).transactions() == old(self).transactions().push(
                Transaction::Send(WriteMode::Command(ddram_seek_command(final(self).cursor()))),
            ),
    {
        let (start, offset) = match pos {
            SeekFrom::Home(offset) => (Address::from_raw(U::home()), offset),
            SeekFrom::Current(offset) => (self.cursor_address, offset),
            SeekFrom::Line { line, offset } => (Address::from_raw(line.line_address()), offset),
        };
        self.cursor_address = start.wrapping_add(Address::from_raw(offset));
        let cmd = SEEK_DDRAM_CMD | self.cursor_address.to_raw();
        self.transmit(WriteMode::Command(cmd));
    }

    /// Switches to the character generator RAM (CGRAM) and set the cursor's
    /// address to the given value. After that all following instructions will
    /// operate on this RAM type until it is switched back to display data RAM.
    pub fn set_cgram_address(self, address: u8) -> (r: Display<P, U, CgRam>)
        requires
            self.wf(),
        ensures
            r.wf(),
            r.cursor() == Address::<CgRam>::spec_from_raw(address),
            r.transactions() == self.transactions().push(
                Transaction::Send(WriteMode::Command(cgram_seek_command(r.cursor()))),
            ),
    {
        let mut cgram_display = Display {
            connection: self.connection,
            cursor_address: Address::<CgRam>::from_raw(0),
            line_marker: PhantomData,
        };
        cgram_display.seek(SeekCgRamFrom::Home(address));
        cgram_display
    }
}

impl<P, U> Display<P, U, CgRam> where P: Init + SendInit + Send + Receive, U: Home {
    /// Seeks to an offset in character generator RAM.
    pub fn seek(&mut self, pos: SeekCgRamFrom)
        requires
            old(self).wf(),
        ensures
            final(self).wf(),
            final(self).cursor() == cgram_seek_target(old(self).cursor(), pos),
            final(self).transactions() == old(self).transactions().push(
                Transaction::Send(WriteMode::Command(cgram_seek_command(final(self).cursor()))),
            ),
    {
        let addr = match pos {
            SeekCgRamFrom::Home(offset) => Address::from_raw(offset),
            SeekCgRamFrom::Current(offset) => self.cursor_address.wrapping_add(
                Address::from_raw(offset),
            ),
        };
        self.cursor_address = addr;
        let cmd = SEEK_CGRAM_CMD | self.cursor_address.to_raw();
        self.transmit(WriteMode::Command(cmd));
    }

    /// Switches to the display data RAM (DDRAM) and set the cursor's address to
    /// the given value. After that all following instructions will operate on
    /// this RAM type until it is switched back to character generator RAM.
    pub fn set_ddram_address(self, pos: SetFrom<U>) -> (r: Display<P, U, DdRam>)
        requires
            self.wf(),
        ensures
            r.wf(),
            r.cursor() == ddram_seek_target(0, set_from_as_seek(pos)),
            r.transactions() == self.transactions().push(
                Transaction::Send(WriteMode::Command(ddram_seek_command(r.cursor()))),
            ),
    {
        let mut ddram_display = Display {
            connection: self.connection,
            cursor_address: Address::<DdRam>::from_raw(0),
            line_marker: PhantomData,
        };
        ddram_display.seek(SeekFrom::from(pos));
        ddram_display
    }
}

} // verus!
