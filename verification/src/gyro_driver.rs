//! The I3G4250D driver as a state machine over SPI transactions.
//!
//! An operation (`who_am_i`, `init`, `set_data_rate`, `set_range`,
//! `read_raw_data`, `read_temperature`) starts by returning the first frame to
//! transfer. The caller selects the chip, transfers the frame full-duplex,
//! deselects the chip and hands the outcome to `on_transfer`, which answers
//! with the next frame or with the result of the operation. A failed transfer
//! ends the operation with the error "SPI transfer failed".

use vstd::prelude::*;
use crate::frames::{
    byte_as_i8, byte_to_i8, i16_from_le_bytes, le_i16, raw_data_frame, raw_data_read_frame,
    read_frame, read_register_frame, write_frame, write_register_frame,
};
use crate::registers::{
    DataRate, Range, CTRL_REG1, CTRL_REG1_KEEP, CTRL_REG2, CTRL_REG3, CTRL_REG4, CTRL_REG4_KEEP,
    CTRL_REG5, TEMP, WHO_AM_I,
};

verus! {

/// The operation in progress and the transfer it waits on.
#[derive(Clone, Copy, Debug, PartialEq, Eq, Structural)]
pub enum Pending {
    /// No operation in progress.
    Idle,
    /// Waiting on the read of WHO_AM_I.
    WhoAmI,
    /// Waiting on the configuration write with this index (see `init_write`).
    Init(u8),
    /// Waiting on the read of CTRL_REG1, before writing this rate into it.
    DataRateRead(DataRate),
    /// Waiting on the write of CTRL_REG1.
    DataRateWrite,
    /// Waiting on the read of CTRL_REG4, before writing this range into it.
    RangeRead(Range),
    /// Waiting on the write of CTRL_REG4 that selects this range.
    RangeWrite(Range),
    /// Waiting on the six-byte read of the angular rate outputs.
    RawData,
    /// Waiting on the read of the temperature register.
    Temperature,
}

/// What a finished operation returns.
#[derive(Clone, Copy, Debug, PartialEq, Eq, Structural)]
pub enum Reply {
    /// The WHO_AM_I byte.
    WhoAmI(u8),
    /// A configuration (`init`, `set_data_rate`, `set_range`) was written.
    Configured,
    /// Raw angular rates of the X, Y and Z axes.
    RawData(i16, i16, i16),
    /// The temperature byte, read as a signed value.
    Temperature(i8),
}

/// What the caller does next.
#[derive(Debug)]
pub enum Action {
    /// Select the chip, transfer these bytes full-duplex, deselect the chip,
    /// and hand the outcome to `GyroDriver::on_transfer`.
    Transfer(Vec<u8>),
    /// The operation is over, with this result.
    Complete(Result<Reply, &'static str>),
}

/// The model of an `Action`: the frame to send, or the result.
pub enum Step {
    Send(Seq<u8>),
    Finish(Result<Reply, &'static str>),
}

impl View for Action {
    type V = Step;

    open spec fn view(&self) -> Step {
        match self {
            Action::Transfer(frame) => Step::Send(frame@),
            Action::Complete(r) => Step::Finish(*r),
        }
    }
}

/// The state of the driver: the full-scale range last written to the sensor,
/// and the operation in progress.
pub struct DriverState {
    pub range: Range,
    pub pending: Pending,
}

/// I3G4250D driver. It holds the range that was last configured, which sets
/// the scale of the angular rates, and the operation in progress.
pub struct GyroDriver {
    range: Range,
    pending: Pending,
}

impl View for GyroDriver {
    type V = DriverState;

    closed spec fn view(&self) -> DriverState {
        DriverState { range: self.range, pending: self.pending }
    }
}

/// The configuration write with index `k` of `init`, as (register, value):
/// CTRL_REG1 = 0x0F (normal mode, X/Y/Z enabled, 100 Hz), then CTRL_REG2,
/// CTRL_REG3, CTRL_REG4 and CTRL_REG5 cleared.
pub open spec fn init_write(k: int) -> (u8, u8) {
    if k == 0 {
        (CTRL_REG1, 0x0Fu8)
    } else if k == 1 {
        (CTRL_REG2, 0u8)
    } else if k == 2 {
        (CTRL_REG3, 0u8)
    } else if k == 3 {
        (CTRL_REG4, 0u8)
    } else {
        (CTRL_REG5, 0u8)
    }
}

/// CTRL_REG1 with its data rate field replaced by `rate`'s code, bits [5:0] kept.
pub open spec fn with_data_rate(current: u8, rate: DataRate) -> u8 {
    (current & CTRL_REG1_KEEP) | ((rate.dr_code() * 64) as u8)
}

/// CTRL_REG4 with its full-scale field replaced by `range`'s code, other bits kept.
pub open spec fn with_range(current: u8, range: Range) -> u8 {
    (current & CTRL_REG4_KEEP) | ((range.fs_code() * 16) as u8)
}

/// The frame that starts the operation `p`.
pub open spec fn first_frame(p: Pending) -> Seq<u8> {
    match p {
        Pending::WhoAmI => read_frame(WHO_AM_I),
        Pending::Init(k) => write_frame(init_write(k as int).0, init_write(k as int).1),
        Pending::DataRateRead(_) => read_frame(CTRL_REG1),
        Pending::RangeRead(_) => read_frame(CTRL_REG4),
        Pending::RawData => raw_data_frame(),
        Pending::Temperature => read_frame(TEMP),
        _ => Seq::empty(),
    }
}

/// The number of bytes that the transfer awaited in state `p` moves.
pub open spec fn frame_len(p: Pending) -> nat {
    match p {
        Pending::Idle => 0,
        Pending::RawData => 7,
        _ => 2,
    }
}

/// The error that ends an operation whose transfer failed.
pub open spec fn spi_failure() -> Result<Reply, &'static str> {
    Err("SPI transfer failed")
}

/// One step of the driver: from state `s` and the outcome of the transfer it
/// waits on (`None` for a failed transfer, else the bytes received), the next
/// state and what to do next.
pub open spec fn step(s: DriverState, received: Option<Seq<u8>>) -> (DriverState, Step) {
    let idle = DriverState { range: s.range, pending: Pending::Idle };
    match received {
        None => (idle, Step::Finish(spi_failure())),
        Some(rx) => match s.pending {
            Pending::Idle => (idle, Step::Finish(spi_failure())),
            Pending::WhoAmI => (idle, Step::Finish(Ok(Reply::WhoAmI(rx[1])))),
            Pending::Init(k) => if k < 4 {
                let next = Pending::Init((k + 1) as u8);
                (DriverState { range: s.range, pending: next }, Step::Send(first_frame(next)))
            } else {
                (idle, Step::Finish(Ok(Reply::Configured)))
            },
            Pending::DataRateRead(rate) => (
                DriverState { range: s.range, pending: Pending::DataRateWrite },
                Step::Send(write_frame(CTRL_REG1, with_data_rate(rx[1], rate))),
            ),
            Pending::DataRateWrite => (idle, Step::Finish(Ok(Reply::Configured))),
            Pending::RangeRead(range) => (
                DriverState { range: s.range, pending: Pending::RangeWrite(range) },
                Step::Send(write_frame(CTRL_REG4, with_range(rx[1], range))),
            ),
            Pending::RangeWrite(range) => (
                DriverState { range: range, pending: Pending::Idle },
                Step::Finish(Ok(Reply::Configured)),
            ),
            Pending::RawData => (
                idle,
                Step::Finish(Ok(Reply::RawData(
                    le_i16(rx[1], rx[2]) as i16,
                    le_i16(rx[3], rx[4]) as i16,
                    le_i16(rx[5], rx[6]) as i16,
                ))),
            ),
            Pending::Temperature => (
                idle,
                Step::Finish(Ok(Reply::Temperature(byte_as_i8(rx[1]) as i8))),
            ),
        },
    }
}

/// The outcome of a transfer as `step` takes it.
pub open spec fn outcome<E>(received: Result<&[u8], E>) -> Option<Seq<u8>> {
    match received {
        Ok(rx) => Some(rx@),
        Err(_) => None,
    }
}

/// Number of transfers that are still to come, at most, in state `p`.
pub open spec fn transfers_left(p: Pending) -> nat {
    match p {
        Pending::Idle => 0,
        Pending::Init(k) => if k < 4 { (5 - k) as nat } else { 1 },
        Pending::DataRateRead(_) => 2,
        Pending::RangeRead(_) => 2,
        _ => 1,
    }
}

proof fn lemma_dr_field(x: u8, c: u8)
    by (bit_vector)
    requires
        c < 4,
    ensures
        ((x & 0x3F) | ((c * 64) as u8)) / 64 == c,
        ((x & 0x3F) | ((c * 64) as u8)) & 0x3F == x & 0x3F,
{
}

proof fn lemma_fs_field(x: u8, c: u8)
    by (bit_vector)
    requires
        c < 4,
    ensures
        (((x & 0xCF) | ((c * 16) as u8)) / 16) % 4 == c,
        ((x & 0xCF) | ((c * 16) as u8)) & 0xCF == x & 0xCF,
{
}

/// Setting the data rate replaces CTRL_REG1 bits [7:6] by the rate's code
/// and keeps bits [5:0] as they were read.
pub proof fn law_with_data_rate(current: u8, rate: DataRate)
    ensures
        DataRate::from_ctrl_reg1(with_data_rate(current, rate)) == rate,
        with_data_rate(current, rate) & CTRL_REG1_KEEP == current & CTRL_REG1_KEEP,
{
    lemma_dr_field(current, rate.dr_code());
}

/// Setting the range replaces CTRL_REG4 bits [5:4] by the range's code and
/// keeps bits [7:6] and [3:0] as they were read.
pub proof fn law_with_range(current: u8, range: Range)
    ensures
        Range::from_ctrl_reg4(with_range(current, range)) == range,
        with_range(current, range) & CTRL_REG4_KEEP == current & CTRL_REG4_KEEP,
{
    lemma_fs_field(current, range.fs_code());
}

/// Every step from a busy state either sends the next frame and stays busy
/// with fewer transfers left, or finishes the operation and leaves the driver
/// idle; the configured range changes only when a `set_range` write succeeds,
/// and then to the requested range. So every operation ends after at most
/// five transfers.
pub proof fn law_step_progress(s: DriverState, received: Option<Seq<u8>>)
    requires
        !(s.pending is Idle),
    ensures
        ({
            let (t, a) = step(s, received);
            &&& a is Send ==> !(t.pending is Idle) && transfers_left(t.pending) < transfers_left(s.pending)
            &&& a is Finish <==> t.pending is Idle
            &&& t.range != s.range ==> (s.pending matches Pending::RangeWrite(r) && t.range == r && received is Some)
        }),
{
}

/// A failed transfer ends any operation with "SPI transfer failed" and keeps
/// the configured range.
pub proof fn law_failure_ends_operation(s: DriverState)
    ensures
        step(s, None) == (DriverState { range: s.range, pending: Pending::Idle }, Step::Finish(spi_failure())),
{
}

/// `set_data_rate(rate)` reads CTRL_REG1, then writes back the byte read with
/// bits [7:6] replaced by `rate`, keeping bits [5:0]; once the write succeeds
/// it reports `Configured`. The range is not touched.
pub proof fn law_set_data_rate(range: Range, rate: DataRate, read: Seq<u8>, written: Seq<u8>)
    requires
        read.len() >= 2,
    ensures
        ({
            let s0 = DriverState { range: range, pending: Pending::DataRateRead(rate) };
            let (s1, a1) = step(s0, Some(read));
            let (s2, a2) = step(s1, Some(written));
            &&& a1 matches Step::Send(frame) && frame == write_frame(CTRL_REG1, frame[1])
                && DataRate::from_ctrl_reg1(frame[1]) == rate
                && frame[1] & CTRL_REG1_KEEP == read[1] & CTRL_REG1_KEEP
            &&& s2 == (DriverState { range: range, pending: Pending::Idle })
            &&& a2 == Step::Finish(Ok(Reply::Configured))
        }),
{
    law_with_data_rate(read[1], rate);
}

/// `set_range(r)` reads CTRL_REG4, then writes back the byte read with bits
/// [5:4] replaced by `r`, keeping the other bits; once the write succeeds it
/// reports `Configured` and the driver's range is `r`. A failed write leaves
/// the range as it was.
pub proof fn law_set_range(range: Range, r: Range, read: Seq<u8>, written: Seq<u8>)
    requires
        read.len() >= 2,
    ensures
        ({
            let s0 = DriverState { range: range, pending: Pending::RangeRead(r) };
            let (s1, a1) = step(s0, Some(read));
            let (s2, a2) = step(s1, Some(written));
            let (s3, a3) = step(s1, None);
            &&& a1 matches Step::Send(frame) && frame == write_frame(CTRL_REG4, frame[1])
                && Range::from_ctrl_reg4(frame[1]) == r
                && frame[1] & CTRL_REG4_KEEP == read[1] & CTRL_REG4_KEEP
            &&& s2 == (DriverState { range: r, pending: Pending::Idle })
            &&& a2 == Step::Finish(Ok(Reply::Configured))
            &&& s3 == (DriverState { range: range, pending: Pending::Idle })
            &&& a3 == Step::Finish(spi_failure())
        }),
{
    law_with_range(read[1], r);
}

/// With every transfer succeeding, `init` writes CTRL_REG1 = 0x0F and then
/// clears CTRL_REG2, CTRL_REG3, CTRL_REG4 and CTRL_REG5, in that order, and
/// reports `Configured` after the fifth write.
pub proof fn law_init_sequence(range: Range, rx: Seq<u8>)
    ensures
        ({
            let s0 = DriverState { range: range, pending: Pending::Init(0) };
            let (s1, a1) = step(s0, Some(rx));
            let (s2, a2) = step(s1, Some(rx));
            let (s3, a3) = step(s2, Some(rx));
            let (s4, a4) = step(s3, Some(rx));
            let (s5, a5) = step(s4, Some(rx));
            &&& first_frame(s0.pending) == write_frame(CTRL_REG1, 0x0F)
            &&& a1 == Step::Send(write_frame(CTRL_REG2, 0))
            &&& a2 == Step::Send(write_frame(CTRL_REG3, 0))
            &&& a3 == Step::Send(write_frame(CTRL_REG4, 0))
            &&& a4 == Step::Send(write_frame(CTRL_REG5, 0))
            &&& a5 == Step::Finish(Ok(Reply::Configured))
            &&& s5 == (DriverState { range: range, pending: Pending::Idle })
        }),
{
}

/// A successful WHO_AM_I transfer always finishes with `Ok`, carrying exactly
/// the second byte received (the byte clocked out after the command), whatever
/// that byte is; the range is kept and the driver goes idle.
pub proof fn law_who_am_i_reply(range: Range, rx: Seq<u8>)
    requires
        rx.len() >= 2,
    ensures
        step(DriverState { range: range, pending: Pending::WhoAmI }, Some(rx)) == (
            DriverState { range: range, pending: Pending::Idle },
            Step::Finish(Ok(Reply::WhoAmI(rx[1]))),
        ),
{
}

/// A successful output read finishes with `Ok(RawData(x, y, z))`, each axis
/// being the two's complement value of its own two bytes, low byte first:
/// X of bytes 1-2, Y of bytes 3-4, Z of bytes 5-6. (An `i16` is fixed by its
/// value modulo 65536.)
pub proof fn law_raw_data_reply(range: Range, rx: Seq<u8>)
    requires
        rx.len() >= 7,
    ensures
        ({
            let (t, a) = step(DriverState { range: range, pending: Pending::RawData }, Some(rx));
            &&& t == (DriverState { range: range, pending: Pending::Idle })
            &&& a matches Step::Finish(Ok(Reply::RawData(x, y, z)))
            &&& (x as int) % 65536 == rx[2] * 256 + rx[1]
            &&& (y as int) % 65536 == rx[4] * 256 + rx[3]
            &&& (z as int) % 65536 == rx[6] * 256 + rx[5]
        }),
{
    crate::frames::law_le_i16(rx[1], rx[2], rx[1], rx[2]);
    crate::frames::law_le_i16(rx[3], rx[4], rx[3], rx[4]);
    crate::frames::law_le_i16(rx[5], rx[6], rx[5], rx[6]);
}

/// A successful temperature read finishes with `Ok(Temperature(t))`, `t` being
/// the second byte received read as two's complement. (An `i8` is fixed by its
/// value modulo 256.)
pub proof fn law_temperature_reply(range: Range, rx: Seq<u8>)
    requires
        rx.len() >= 2,
    ensures
        ({
            let (t, a) = step(DriverState { range: range, pending: Pending::Temperature }, Some(rx));
            &&& t == (DriverState { range: range, pending: Pending::Idle })
            &&& a matches Step::Finish(Ok(Reply::Temperature(v)))
            &&& (v as int) % 256 == rx[1]
            &&& (rx[1] < 128 ==> v as int == rx[1])
        }),
{
}

/// Every failed transfer ends the operation with the error
/// "SPI transfer failed", idle, the range kept.
pub proof fn law_failure_message(s: DriverState)
    ensures
        step(s, None) == (
            DriverState { range: s.range, pending: Pending::Idle },
            Step::Finish(Err::<Reply, &'static str>("SPI transfer failed")),
        ),
{
}

fn init_write_exec(k: u8) -> (w: (u8, u8))
    ensures
        w == init_write(k as int),
{
    if k == 0 {
        (CTRL_REG1, 0x0F)
    } else if k == 1 {
        (CTRL_REG2, 0)
    } else if k == 2 {
        (CTRL_REG3, 0)
    } else if k == 3 {
        (CTRL_REG4, 0)
    } else {
        (CTRL_REG5, 0)
    }
}

impl GyroDriver {
    /// A driver with the default range DPS245 and no operation in progress.
    pub fn new() -> (d: GyroDriver)
        ensures
            d@ == (DriverState { range: Range::DPS245, pending: Pending::Idle }),
    {
        GyroDriver { range: Range::DPS245, pending: Pending::Idle }
    }

    /// The range last written to the sensor by `set_range` (DPS245 until then).
    pub fn range(&self) -> (r: Range)
        ensures
            r == self@.range,
    {
        self.range
    }

    /// Whether an operation is in progress.
    pub fn is_busy(&self) -> (b: bool)
        ensures
            b == !(self@.pending is Idle),
    {
        !matches!(self.pending, Pending::Idle)
    }

    /// The number of bytes of the transfer awaited now (0 when idle).
    pub fn transfer_len(&self) -> (n: usize)
        ensures
            n == frame_len(self@.pending),
    {
        match self.pending {
            Pending::Idle => 0,
            Pending::RawData => 7,
            _ => 2,
        }
    }

    fn start(&mut self, p: Pending) -> (a: Action)
        requires
            !(p is Idle || p is DataRateWrite || p is RangeWrite),
            p matches Pending::Init(k) ==> k == 0,
        ensures
            final(self)@ == (DriverState { range: old(self)@.range, pending: p }),
            a@ == Step::Send(first_frame(p)),
    {
        self.pending = p;
        let frame = match p {
            Pending::WhoAmI => read_register_frame(WHO_AM_I),
            Pending::Init(_) => write_register_frame(CTRL_REG1, 0x0F),
            Pending::DataRateRead(_) => read_register_frame(CTRL_REG1),
            Pending::RangeRead(_) => read_register_frame(CTRL_REG4),
            Pending::RawData => raw_data_read_frame(),
            _ => read_register_frame(TEMP),
        };
        Action::Transfer(frame)
    }

    /// Starts reading WHO_AM_I (0xD3 on an I3G4250D).
    pub fn who_am_i(&mut self) -> (a: Action)
        ensures
            final(self)@ == (DriverState { range: old(self)@.range, pending: Pending::WhoAmI }),
            a@ == Step::Send(read_frame(WHO_AM_I)),
    {
        self.start(Pending::WhoAmI)
    }

    /// Starts the power-on configuration: five writes, CTRL_REG1 = 0x0F
    /// (normal mode, all axes, 100 Hz), then CTRL_REG2..CTRL_REG5 = 0.
    pub fn init(&mut self) -> (a: Action)
        ensures
            final(self)@ == (DriverState { range: old(self)@.range, pending: Pending::Init(0) }),
            a@ == Step::Send(write_frame(CTRL_REG1, 0x0F)),
    {
        self.start(Pending::Init(0))
    }

    /// Starts setting the output data rate: read CTRL_REG1, then write it back
    /// with bits [7:6] set to the rate's code.
    pub fn set_data_rate(&mut self, rate: DataRate) -> (a: Action)
        ensures
            final(self)@ == (DriverState {
                range: old(self)@.range,
                pending: Pending::DataRateRead(rate),
            }),
            a@ == Step::Send(read_frame(CTRL_REG1)),
    {
        self.start(Pending::DataRateRead(rate))
    }

    /// Starts setting the full-scale range: read CTRL_REG4, then write it back
    /// with bits [5:4] set to the range's code. The driver keeps the new range
    /// once the write has gone through.
    pub fn set_range(&mut self, range: Range) -> (a: Action)
        ensures
            final(self)@ == (DriverState {
                range: old(self)@.range,
                pending: Pending::RangeRead(range),
            }),
            a@ == Step::Send(read_frame(CTRL_REG4)),
    {
        self.start(Pending::RangeRead(range))
    }

    /// Starts reading the six output bytes in one auto-incremented transfer.
    pub fn read_raw_data(&mut self) -> (a: Action)
        ensures
            final(self)@ == (DriverState { range: old(self)@.range, pending: Pending::RawData }),
            a@ == Step::Send(raw_data_frame()),
    {
        self.start(Pending::RawData)
    }

    /// Starts reading the temperature register.
    pub fn read_temperature(&mut self) -> (a: Action)
        ensures
            final(self)@ == (DriverState {
                range: old(self)@.range,
                pending: Pending::Temperature,
            }),
            a@ == Step::Send(read_frame(TEMP)),
    {
        self.start(Pending::Temperature)
    }

    /// Takes the outcome of the transfer that the driver waits on: the bytes
    /// received, or the transfer's error. Answers with the next frame or the
    /// result of the operation, as `step` says.
    pub fn on_transfer<E>(&mut self, received: Result<&[u8], E>) -> (a: Action)
        requires
            !(old(self)@.pending is Idle),
            received matches Ok(rx) ==> rx@.len() >= frame_len(old(self)@.pending),
        ensures
            (final(self)@, a@) == step(old(self)@, outcome(received)),
    {
        let rx = match received {
            Ok(rx) => rx,
            Err(_) => {
                self.pending = Pending::Idle;
                return Action::Complete(Err("SPI transfer failed"));
            },
        };
        match self.pending {
            Pending::Idle => Action::Complete(Err("SPI transfer failed")),
            Pending::WhoAmI => {
                self.pending = Pending::Idle;
                Action::Complete(Ok(Reply::WhoAmI(rx[1])))
            },
            Pending::Init(k) => {
                if k < 4 {
                    let next = k + 1;
                    self.pending = Pending::Init(next);
                    let (reg, value) = init_write_exec(next);
                    Action::Transfer(write_register_frame(reg, value))
                } else {
                    self.pending = Pending::Idle;
                    Action::Complete(Ok(Reply::Configured))
                }
            },
            Pending::DataRateRead(rate) => {
                self.pending = Pending::DataRateWrite;
                let value = (rx[1] & CTRL_REG1_KEEP) | rate.ctrl_reg1_bits();
                Action::Transfer(write_register_frame(CTRL_REG1, value))
            },
            Pending::DataRateWrite => {
                self.pending = Pending::Idle;
                Action::Complete(Ok(Reply::Configured))
            },
            Pending::RangeRead(range) => {
                self.pending = Pending::RangeWrite(range);
                let value = (rx[1] & CTRL_REG4_KEEP) | range.ctrl_reg4_bits();
                Action::Transfer(write_register_frame(CTRL_REG4, value))
            },
            Pending::RangeWrite(range) => {
                self.range = range;
                self.pending = Pending::Idle;
                Action::Complete(Ok(Reply::Configured))
            },
            Pending::RawData => {
                self.pending = Pending::Idle;
                let x = i16_from_le_bytes(rx[1], rx[2]);
                let y = i16_from_le_bytes(rx[3], rx[4]);
                let z = i16_from_le_bytes(rx[5], rx[6]);
                Action::Complete(Ok(Reply::RawData(x, y, z)))
            },
            Pending::Temperature => {
                self.pending = Pending::Idle;
                Action::Complete(Ok(Reply::Temperature(byte_to_i8(rx[1]))))
            },
        }
    }
}

} // verus!
