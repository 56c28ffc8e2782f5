use vstd::prelude::*;
use crate::codec::{
    gain_time_byte, gain_time_value, is_le_words, is_mode_fields, is_status_flags, le_value,
    le_word, le_words, mode_byte, mode_fields, mode_value, status_flags,
};
use crate::registers::{
    AS7331_AGEN, AS7331_BREAK, AS7331_CREG1, AS7331_CREG3, AS7331_MRES1, AS7331_MRES2,
    AS7331_MRES3, AS7331_OSR, AS7331_OSR_ENTER_MEASUREMENT, AS7331_STATUS, AS7331_TEMP,
};
use crate::state::{apply_edit, edit_bit, edit_target, edited, law_edit_changes_one_bit, StateEdit};

verus! {

/// One bus transaction addressed to the device at `addr`.
#[derive(Clone, Copy, PartialEq, Eq, Debug, Structural)]
pub enum Transfer {
    /// Writes the two bytes `reg`, `value`.
    Write { addr: u8, reg: u8, value: u8 },
    /// Writes the byte `reg`, then reads `len` bytes.
    WriteRead { addr: u8, reg: u8, len: usize },
}

/// What became of the transfer that an exchange asked for.
#[derive(Debug, PartialEq)]
pub enum Outcome<E> {
    /// The write completed.
    Written,
    /// The combined write-then-read completed with these bytes.
    Read(Vec<u8>),
    /// The bus reported a fault.
    Failed(E),
}

/// The decoded result of a completed operation.
#[derive(Clone, Copy, PartialEq, Eq, Debug)]
pub enum Reply {
    /// The operation only writes.
    Done,
    /// A raw register byte.
    Byte(u8),
    /// One 16-bit result.
    Word(u16),
    /// The eight status flags, index `i` holding bit `i`.
    Flags([u8; 8]),
    /// Temperature, UV-A, UV-B and UV-C, in that order.
    Words([u16; 4]),
    /// Device state, start flag, power flag and reset flag, in that order.
    Mode([u8; 4]),
}

/// What the caller is to do next.
#[derive(Debug, PartialEq)]
pub enum Action<E> {
    /// Run this transfer and report its outcome.
    Issue(Transfer),
    /// The operation is over.
    Finish(Result<Reply, E>),
}

/// The driver's operations.
#[derive(Clone, Copy, PartialEq, Eq, Debug, Structural)]
pub enum Command {
    /// Read the chip identifier.
    ChipId,
    /// Write the three configuration registers.
    Init { mmode: u8, cclk: u8, sb: u8, break_time: u8, gain: u8, time: u8 },
    /// Change one bit of the operating-state register by read-modify-write.
    Edit(StateEdit),
    /// Read the status flags.
    Status,
    /// Read the temperature result.
    Temperature,
    /// Read the UV-A result.
    UvA,
    /// Read the UV-B result.
    UvB,
    /// Read the UV-C result.
    UvC,
    /// Read all four results in one burst.
    AllData,
    /// Read and decode the operating state.
    Mode,
    /// Enter measurement state with one direct write.
    MeasurementMode,
}

/// The transfers that `c` makes on the device at `addr` when every one succeeds;
/// `read` holds the bytes of the operation's read, which a read-modify-write edits.
pub open spec fn script(addr: u8, c: Command, read: Seq<u8>) -> Seq<Transfer> {
    match c {
        Command::ChipId => seq![Transfer::WriteRead { addr, reg: AS7331_AGEN, len: 1 }],
        Command::Init { mmode, cclk, sb, break_time, gain, time } => seq![
            Transfer::Write { addr, reg: AS7331_CREG1, value: gain_time_value(gain, time) },
            Transfer::Write { addr, reg: AS7331_CREG3, value: mode_value(mmode, sb, cclk) },
            Transfer::Write { addr, reg: AS7331_BREAK, value: break_time },
        ],
        Command::Edit(e) => seq![
            Transfer::WriteRead { addr, reg: AS7331_OSR, len: 1 },
            Transfer::Write { addr, reg: AS7331_OSR, value: edited(e, read[0]) },
        ],
        Command::Status => seq![Transfer::WriteRead { addr, reg: AS7331_STATUS, len: 2 }],
        Command::Temperature => seq![Transfer::WriteRead { addr, reg: AS7331_TEMP, len: 2 }],
        Command::UvA => seq![Transfer::WriteRead { addr, reg: AS7331_MRES1, len: 2 }],
        Command::UvB => seq![Transfer::WriteRead { addr, reg: AS7331_MRES2, len: 2 }],
        Command::UvC => seq![Transfer::WriteRead { addr, reg: AS7331_MRES3, len: 2 }],
        Command::AllData => seq![Transfer::WriteRead { addr, reg: AS7331_TEMP, len: 8 }],
        Command::Mode => seq![Transfer::WriteRead { addr, reg: AS7331_OSR, len: 2 }],
        Command::MeasurementMode => seq![
            Transfer::Write { addr, reg: AS7331_OSR, value: AS7331_OSR_ENTER_MEASUREMENT },
        ],
    }
}

/// How many bytes the read of `c` returns (0 for an operation that only writes).
pub open spec fn read_len(c: Command) -> nat {
    match c {
        Command::ChipId => 1,
        Command::Edit(_) => 1,
        Command::Status => 2,
        Command::Temperature => 2,
        Command::UvA => 2,
        Command::UvB => 2,
        Command::UvC => 2,
        Command::AllData => 8,
        Command::Mode => 2,
        _ => 0,
    }
}

/// `r` is what `c` returns after its read gave the bytes `read`.
pub open spec fn is_reply(c: Command, read: Seq<u8>, r: Reply) -> bool {
    match c {
        Command::ChipId => r == Reply::Byte(read[0]),
        Command::Status => r is Flags && is_status_flags(r->Flags_0@, read[1]),
        Command::Temperature | Command::UvA | Command::UvB | Command::UvC => r is Word
            && r->Word_0 == le_value(read[0], read[1]),
        Command::AllData => r is Words && is_le_words(r->Words_0@, read),
        Command::Mode => r is Mode && is_mode_fields(r->Mode_0@, read[0]),
        _ => r == Reply::Done,
    }
}

/// `o` is an outcome that transfer `t` can have.
pub open spec fn fits<E>(t: Transfer, o: Outcome<E>) -> bool {
    match o {
        Outcome::Written => t is Write,
        Outcome::Read(v) => t is WriteRead && v@.len() == t->WriteRead_len,
        Outcome::Failed(_) => true,
    }
}

/// The state of an exchange: the operation, how many of its transfers have completed,
/// the bytes read so far, and whether it has finished.
pub struct ExchangeView {
    pub addr: u8,
    pub command: Command,
    pub stage: nat,
    pub read: Seq<u8>,
    pub finished: bool,
}

impl ExchangeView {
    /// While the exchange runs, its stage lies in the script and the bytes held match
    /// the transfers completed so far.
    pub open spec fn wf(self) -> bool {
        !self.finished ==> {
            &&& self.stage < script(self.addr, self.command, self.read).len()
            &&& self.read.len() == if self.stage == 0 {
                0
            } else {
                read_len(self.command)
            }
        }
    }

    /// The transfer whose outcome the exchange waits for, if any.
    pub open spec fn pending(self) -> Option<Transfer> {
        if self.finished {
            None
        } else {
            Some(script(self.addr, self.command, self.read)[self.stage as int])
        }
    }
}

/// `v` is `c` on the device at `addr`, not yet begun: nothing read, the first transfer pending.
pub open spec fn is_start(v: ExchangeView, addr: u8, c: Command) -> bool {
    &&& v == (ExchangeView { addr, command: c, stage: 0, read: seq![], finished: false })
    &&& v.wf()
}

/// One operation in progress on the device: it hands out transfers one at a time and
/// takes back the outcome of each.
pub struct Exchange {
    addr: u8,
    command: Command,
    stage: usize,
    read: Vec<u8>,
    finished: bool,
}

impl View for Exchange {
    type V = ExchangeView;

    closed spec fn view(&self) -> ExchangeView {
        ExchangeView {
            addr: self.addr,
            command: self.command,
            stage: self.stage as nat,
            read: self.read@,
            finished: self.finished,
        }
    }
}

impl Exchange {
    /// Starts `command` on the device at `addr`; returns the exchange and its first transfer.
    pub fn new(addr: u8, command: Command) -> (r: (Exchange, Transfer))
        ensures
            is_start(r.0@, addr, command),
            r.0@.pending() == Some(r.1),
            r.1 == script(addr, command, seq![])[0],
    {
        let ex = Exchange { addr, command, stage: 0, read: Vec::new(), finished: false };
        let t = ex.transfer_at(0).unwrap();
        (ex, t)
    }

    /// The operation of this exchange.
    pub fn command(&self) -> (r: Command)
        ensures
            r == self@.command,
    {
        self.command
    }

    /// Whether the exchange has finished.
    pub fn is_finished(&self) -> (r: bool)
        ensures
            r == self@.finished,
    {
        self.finished
    }

    /// Transfer `i` of the script, given the bytes held.
    fn transfer_at(&self, i: usize) -> (r: Option<Transfer>)
        requires
            i >= 1 ==> self.read@.len() == read_len(self.command),
        ensures
            i < script(self.addr, self.command, self.read@).len() ==> r == Some(
                script(self.addr, self.command, self.read@)[i as int],
            ),
            i >= script(self.addr, self.command, self.read@).len() ==> r is None,
    {
        let addr = self.addr;
        match self.command {
            Command::Init { mmode, cclk, sb, break_time, gain, time } => {
                if i == 0 {
                    Some(Transfer::Write { addr, reg: AS7331_CREG1, value: gain_time_byte(gain, time) })
                } else if i == 1 {
                    Some(Transfer::Write { addr, reg: AS7331_CREG3, value: mode_byte(mmode, sb, cclk) })
                } else if i == 2 {
                    Some(Transfer::Write { addr, reg: AS7331_BREAK, value: break_time })
                } else {
                    None
                }
            },
            Command::Edit(e) => {
                if i == 0 {
                    Some(Transfer::WriteRead { addr, reg: AS7331_OSR, len: 1 })
                } else if i == 1 {
                    Some(Transfer::Write { addr, reg: AS7331_OSR, value: apply_edit(e, self.read[0]) })
                } else {
                    None
                }
            },
            Command::MeasurementMode => {
                if i == 0 {
                    Some(Transfer::Write { addr, reg: AS7331_OSR, value: AS7331_OSR_ENTER_MEASUREMENT })
                } else {
                    None
                }
            },
            _ => {
                if i == 0 {
                    let (reg, len) = match self.command {
                        Command::ChipId => (AS7331_AGEN, 1usize),
                        Command::Status => (AS7331_STATUS, 2usize),
                        Command::Temperature => (AS7331_TEMP, 2usize),
                        Command::UvA => (AS7331_MRES1, 2usize),
                        Command::UvB => (AS7331_MRES2, 2usize),
                        Command::UvC => (AS7331_MRES3, 2usize),
                        Command::AllData => (AS7331_TEMP, 8usize),
                        // Command::Mode, the one read left
                        _ => (AS7331_OSR, 2usize),
                    };
                    Some(Transfer::WriteRead { addr, reg, len })
                } else {
                    None
                }
            },
        }
    }

    /// Decodes the reply of the finished operation from the bytes held.
    fn reply(&self) -> (r: Reply)
        requires
            self.read@.len() == read_len(self.command),
        ensures
            is_reply(self.command, self.read@, r),
    {
        match self.command {
            Command::ChipId => Reply::Byte(self.read[0]),
            Command::Status => Reply::Flags(status_flags(self.read[1])),
            Command::Temperature | Command::UvA | Command::UvB | Command::UvC => Reply::Word(
                le_word(self.read[0], self.read[1]),
            ),
            Command::AllData => Reply::Words(le_words(self.read.as_slice())),
            Command::Mode => Reply::Mode(mode_fields(self.read[0])),
            _ => Reply::Done,
        }
    }

    /// Takes the outcome of the pending transfer and says what comes next.
    ///
    /// A fault ends the operation at once with that fault, and no further transfer is
    /// issued. Otherwise the next transfer of the script is issued, or, after the last one,
    /// the operation finishes with the reply decoded from the bytes read.
    pub fn advance<E>(&mut self, outcome: Outcome<E>) -> (a: Action<E>)
        requires
            old(self)@.wf(),
            old(self)@.pending() is Some,
            fits(old(self)@.pending()->Some_0, outcome),
        ensures
            final(self)@.wf(),
            final(self)@.addr == old(self)@.addr,
            final(self)@.command == old(self)@.command,
            outcome is Failed ==> a == Action::<E>::Finish(Err(outcome->Failed_0))
                && final(self)@.finished,
            !(outcome is Failed) ==> {
                let read = if outcome is Read {
                    outcome->Read_0@
                } else {
                    old(self)@.read
                };
                let steps = script(old(self)@.addr, old(self)@.command, read);
                let next = old(self)@.stage + 1;
                &&& next < steps.len() ==> a == Action::<E>::Issue(steps[next as int])
                    && final(self)@ == (ExchangeView { stage: next, read, ..old(self)@ })
                    && final(self)@.pending() == Some(steps[next as int])
                &&& next >= steps.len() ==> a is Finish && a->Finish_0 is Ok && is_reply(
                    old(self)@.command,
                    read,
                    a->Finish_0->Ok_0,
                ) && final(self)@.finished
            },
    {
        match outcome {
            Outcome::Failed(e) => {
                self.finished = true;
                return Action::Finish(Err(e));
            },
            Outcome::Written => {},
            Outcome::Read(v) => {
                self.read = v;
            },
        }
        let next = self.stage + 1;
        match self.transfer_at(next) {
            Some(t) => {
                self.stage = next;
                Action::Issue(t)
            },
            None => {
                self.finished = true;
                Action::Finish(Ok(self.reply()))
            },
        }
    }
}

/// Every gain code and time code of the chip is written to the gain/time register as the
/// single byte `gain * 16 + time`, from which both codes read back unchanged.
pub proof fn law_init_writes_gain_time(
    addr: u8,
    mmode: u8,
    cclk: u8,
    sb: u8,
    break_time: u8,
    gain: u8,
    time: u8,
    read: Seq<u8>,
)
    requires
        gain < 12,
        time < 15,
    ensures
        ({
            let v = gain_time_value(gain, time);
            &&& script(addr, Command::Init { mmode, cclk, sb, break_time, gain, time }, read)[0]
                == Transfer::Write { addr, reg: AS7331_CREG1, value: v }
            &&& v == gain * 16 + time
            &&& v >> 4u8 == gain
            &&& v & 15 == time
        }),
{
    assert(gain < 12 && time < 15 ==> (gain << 4u8) | time == gain * 16 + time && ((gain << 4u8)
        | time) >> 4u8 == gain && ((gain << 4u8) | time) & 15 == time) by (bit_vector);
}

/// A read-modify-write of the operating-state register makes exactly one read and then
/// exactly one write, and the byte written is the byte read with only the edit's bit changed.
pub proof fn law_edit_reads_then_writes(addr: u8, e: StateEdit, b: u8)
    ensures
        script(addr, Command::Edit(e), seq![b]) == seq![
            Transfer::WriteRead { addr, reg: AS7331_OSR, len: 1 },
            Transfer::Write { addr, reg: AS7331_OSR, value: edited(e, b) },
        ],
        crate::codec::bit_of(edited(e, b), edit_bit(e)) == edit_target(e),
        forall|j: u8|
            j < 8 && j != edit_bit(e) ==> #[trigger] crate::codec::bit_of(edited(e, b), j)
                == crate::codec::bit_of(b, j),
        crate::codec::bit_of(b, edit_bit(e)) == edit_target(e) ==> edited(e, b) == b,
{
    law_edit_changes_one_bit(e, b);
}

/// Entering measurement state is one write of `0x83` to the operating-state register,
/// whatever the register held before.
pub proof fn law_measurement_mode_is_fixed(addr: u8, read: Seq<u8>)
    ensures
        script(addr, Command::MeasurementMode, read) == seq![
            Transfer::Write { addr, reg: AS7331_OSR, value: 0x83u8 },
        ],
{
}

} // verus!
