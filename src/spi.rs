//! The driver: bus transactions, register access, the FIFO protocol and the
//! configuration sequence.
//!
//! Every transaction the driver hands to the transport is recorded in a ghost
//! trace of [`BusOp`]s, and the contracts of the driver's operations say
//! exactly which transactions they issue, in which order, and what they return
//! for the answers the chip gave.
use vstd::prelude::*;

pub mod protocol;

use crate::spi::protocol::{
    BusOp, appended, bit_timing_steps, bytes_of, config_steps, configure_spec, dbt_word,
    echo_pattern, echo_spec, fifo_word, filter_object_word, filter_spec, increment_spec,
    int_word, io_steps, io_word, lemma_chain_append, lemma_chain_concat, lemma_chain_err_extend,
    lemma_configure_compose, lemma_filter_id_fits, lemma_modify_then_intro,
    lemma_push_after_control_shift, lemma_then_intro, long_echo_spec, mask_word, mode_phase,
    modify_chain, modify_spec, modify_then, nbt_word, osc_spec, osc_steps, osc_word, poll_spec,
    pop_spec, push_after_control, read_at, read_op, read_result, round_up4, rx_has_next_spec,
    rx_payload_spec, rx_peek_spec, set_op_mode_spec, sfr_read, sfr_write, starts_with_read,
    suffix, tail_steps, tdc_word, tef_has_next_spec, tef_peek_spec, tef_steps, tef_word,
    transmit_spec, tx_fifo_push_spec, tx_object_bytes, tx_queue_push_spec, txq_steps, txq_word,
    word_of, write_ok, write_op,
};

use crate::bits::{field, flag, with_field, with_flag};
use crate::memory::controller::configuration::{
    reported_mode, CanControlRegister, OperationMode, TransmitterDelayCompensationMode,
};
use crate::memory::chip::{IoControlRegister, OscillatorControlRegister};
use crate::memory::controller::configuration::{
    TimeStampControlRegister, DataBitTimeConfigurationRegister, NominalBitTimeConfigurationRegister,
    TransmitterDelayCompensationRegister,
};
use crate::memory::controller::fifo::fsize_field_for;
use crate::settings::{
    BitTimeConfiguration, DataBitTimeConfiguration, IoConfiguration, NominalBitTimeConfiguration,
    TxEventFifoConfiguration, TxQueueConfiguration,
};
use crate::settings::{OscillatorConfiguration, Pll, SysClkDivider};
use crate::memory::controller::fifo::{
    FifoControlRegister, FifoNumber, FifoStatusRegister, PayloadSize, TxQueueControlRegister,
    TxQueueStatusRegister, UserAddressKind, UserAddressRegister,
};
use crate::memory::controller::interrupt::{
    InterruptCodeRegister, InterruptRegister, RxInterruptStatusRegister,
    RxOverflowInterruptStatusRegister, TxAttemptInterruptStatusRegister, TxInterruptStatusRegister,
};
use crate::memory::controller::filter::{
    FilterControlRegister, FilterNumber, FilterObjectRegister, MaskRegister,
};
use crate::settings::{Settings, FifoConfiguration, FifoMode, FilterConfiguration, FilterMatchMode};
use crate::message::tx::{id_word, CanId};
use crate::message::rx::{rx_payload, rx_payload_len, RxHeader, RxMessage};
use crate::message::tx::{TxEventObject, TxHeader, TxMessage};
use crate::message::{len_for_dlc, payload_len_of_dlc};
use crate::memory::controller::fifo::{TxEventFifoControlRegister, TxEventFifoStatusRegister};
use crate::memory::{RAM_BASE_ADDRESS, ram_range_ok, is_valid_ram_address, Register, RegisterValue, RepeatedRegister, SFRAddress};
use crate::message::{le_bytes, le_word_at, lemma_le_round_trip, read_le_word};

verus! {

/// Failures of a driver operation.
#[derive(Debug, Clone, Copy, PartialEq, Eq, Structural)]
pub enum Error {
    /// Failed to read from the chip over SPI
    SPIRead,
    /// Failed to write to the chip over SPI
    SPIWrite,
    /// Attempted to access an invalid RAM address
    InvalidRamAddress(u16),
    /// Tried to read data from RAM that was not a multiple of 4 bytes
    InvalidReadLength(usize),
    /// Tried to write data to RAM that was not a multiple of 4 bytes
    InvalidWriteLength(usize),
    /// Tried to transmit a message through the TXQ, but the TXQ is not enabled
    TxQueueDisabled,
    /// Tried to transmit a message with a FIFO not configured for transmission
    FifoNotTx,
    /// Tried to send a message that was too big for the FIFO
    FifoTooSmall,
    /// FIFO is already full and can not take any more messages
    FifoFull,
    /// Tried to read a message from a FIFO not configured for reception
    FifoNotRx,
    Other,
}

/// Failures of the configuration sequence.
#[derive(Debug, Clone, Copy, PartialEq, Eq, Structural)]
pub enum ConfigError {
    /// The chip did not report the requested operating mode in time.
    ChangeOpModeTimeout,
    /// The chip could not be brought into configuration mode, or a register
    /// transfer of the sequence failed.
    ConfigurationModeTimeout,
    /// A pattern written to RAM did not read back unchanged.
    SPIFailedRAMEcho,
    /// The PLL did not report ready in time.
    PLLNotReady,
    Other(Error),
}

/// How an operation error is reported by the configuration sequence: a
/// failed transfer as a configuration timeout, anything else wrapped.
pub open spec fn spec_config_error(error: Error) -> ConfigError {
    match error {
        Error::SPIRead | Error::SPIWrite => ConfigError::ConfigurationModeTimeout,
        _ => ConfigError::Other(error),
    }
}

impl From<Error> for ConfigError {
    fn from(error: Error) -> (r: ConfigError) {
        match error {
            Error::SPIRead | Error::SPIWrite => ConfigError::ConfigurationModeTimeout,
            _ => ConfigError::Other(error),
        }
    }
}

impl vstd::std_specs::convert::FromSpecImpl<Error> for ConfigError {
    open spec fn obeys_from_spec() -> bool {
        true
    }

    open spec fn from_spec(error: Error) -> ConfigError {
        spec_config_error(error)
    }
}

/// The serial transport to the chip. Each method is one transaction: the
/// chip is selected, the phases run back to back, and the chip is released.
pub trait SpiTransport {
    /// Writes the two instruction bytes, then reads `len` bytes.
    fn transfer_read(&mut self, instruction: [u8; 2], len: usize) -> Result<Vec<u8>, ()>;

    /// Writes the two instruction bytes, then `data`.
    fn transfer_write(&mut self, instruction: [u8; 2], data: &[u8]) -> Result<(), ()>;
}

/// A blocking delay.
pub trait DelayUs {
    fn delay_us(&mut self, us: u32);
}

pub const OPCODE_RESET: u16 = 0b0000;

pub const OPCODE_READ: u16 = 0b0011;

pub const OPCODE_WRITE: u16 = 0b0010;

/// The 16-bit instruction word: a 4-bit opcode above a 12-bit address.
pub open spec fn instruction_word(opcode: u16, address: u16) -> u16 {
    ((opcode & 0xF) << 12) | (address & 0xFFF)
}

/// The instruction as sent on the bus, most significant byte first.
pub open spec fn instruction_bytes(opcode: u16, address: u16) -> Seq<u8> {
    seq![(instruction_word(opcode, address) >> 8) as u8, (instruction_word(opcode, address) & 0xFF) as u8]
}

/// A 16-bit SPI instruction: opcode in bits 12 to 15, address in bits 0 to 11.
#[derive(Debug, Clone, Copy, PartialEq, Eq, Structural)]
pub struct Instruction(pub u16);

impl Instruction {
    pub fn new(opcode: u16, address: u16) -> (r: Instruction)
        ensures
            r.0 == instruction_word(opcode, address),
    {
        Instruction(((opcode & 0xF) << 12) | (address & 0xFFF))
    }

    /// The instruction's two bytes, most significant first.
    pub fn into_spi_data(self) -> (r: [u8; 2])
        ensures
            r@ == seq![(self.0 >> 8) as u8, (self.0 & 0xFF) as u8],
    {
        let r = [(self.0 >> 8) as u8, (self.0 & 0xFF) as u8];
        assert(r@ =~= seq![(self.0 >> 8) as u8, (self.0 & 0xFF) as u8]);
        r
    }
}

/// Whether two byte strings are equal.
fn bytes_equal(a: &[u8], b: &[u8]) -> (r: bool)
    ensures
        r == (a@ == b@),
{
    if a.len() != b.len() {
        return false;
    }
    let mut k: usize = 0;
    while k < a.len()
        invariant
            k <= a@.len(),
            a@.len() == b@.len(),
            forall|j: int| 0 <= j < k ==> a@[j] == b@[j],
        decreases a@.len() - k,
    {
        if a[k] != b[k] {
            return false;
        }
        k = k + 1;
    }
    assert(a@ =~= b@);
    true
}

/// Driver for one MCP2518FD on a transport.
pub struct MCP2518FD<SPI> {
    spi: SPI,
    trace: Ghost<Seq<BusOp>>,
}

impl<SPI: SpiTransport> MCP2518FD<SPI> {
    /// The transactions issued so far, oldest first.
    pub closed spec fn trace(&self) -> Seq<BusOp> {
        self.trace@
    }

    /// The transport the driver holds.
    pub closed spec fn transport(&self) -> SPI {
        self.spi
    }

    /// A driver over `spi`; nothing is sent.
    pub fn new(spi: SPI) -> (r: MCP2518FD<SPI>)
        ensures
            r.trace() == Seq::<BusOp>::empty(),
            r.transport() == spi,
    {
        MCP2518FD { spi, trace: Ghost(Seq::empty()) }
    }

    /// Gives the transport back.
    pub fn free(self) -> (r: SPI)
        ensures
            r == self.transport(),
    {
        self.spi
    }

    fn transfer_read(&mut self, opcode: u16, address: u16, len: usize) -> (r: Result<Vec<u8>, ()>)
        ensures
            final(self).trace() == old(self).trace().push(
                BusOp::Read {
                    instruction: instruction_bytes(opcode, address),
                    len: len as nat,
                    data: match r {
                        Ok(v) => Some(v@),
                        Err(_) => None,
                    },
                },
            ),
            r matches Ok(v) ==> v@.len() == len,
    {
        let instruction = Instruction::new(opcode, address).into_spi_data();
        let r = match self.spi.transfer_read(instruction, len) {
            Ok(v) => if v.len() == len {
                Ok(v)
            } else {
                Err(())
            },
            Err(_) => Err(()),
        };
        self.trace = Ghost(
            self.trace@.push(
                BusOp::Read {
                    instruction: instruction@,
                    len: len as nat,
                    data: match &r {
                        Ok(v) => Some(v@),
                        Err(_) => None,
                    },
                },
            ),
        );
        r
    }

    fn transfer_write(&mut self, opcode: u16, address: u16, data: &[u8]) -> (r: Result<(), ()>)
        ensures
            final(self).trace() == old(self).trace().push(
                BusOp::Write { instruction: instruction_bytes(opcode, address), data: data@, ok: r is Ok },
            ),
    {
        let instruction = Instruction::new(opcode, address).into_spi_data();
        let r = self.spi.transfer_write(instruction, data);
        self.trace = Ghost(self.trace@.push(BusOp::Write { instruction: instruction@, data: data@, ok: r is Ok }));
        r
    }

    /// Software reset: the RESET instruction alone. Puts the chip in
    /// configuration mode.
    pub fn reset(&mut self) -> (r: Result<(), Error>)
        ensures
            final(self).trace() == old(self).trace().push(
                BusOp::Write { instruction: instruction_bytes(OPCODE_RESET, 0), data: Seq::empty(), ok: r is Ok },
            ),
            r is Err ==> r == Err::<(), Error>(Error::SPIWrite),
    {
        let empty: Vec<u8> = Vec::new();
        match self.transfer_write(OPCODE_RESET, 0, empty.as_slice()) {
            Ok(()) => Ok(()),
            Err(()) => Err(Error::SPIWrite),
        }
    }

    fn read_sfr(&mut self, address: SFRAddress) -> (r: Result<u32, Error>)
        ensures
            final(self).trace() == old(self).trace().push(sfr_read(address, r.ok())),
            read_result(sfr_read(address, r.ok())) == r.ok(),
            r is Err ==> r == Err::<u32, Error>(Error::SPIRead),
    {
        match self.transfer_read(OPCODE_READ, address.address(), 4) {
            Ok(buf) => {
                let v = read_le_word(buf.as_slice(), 0);
                proof {
                    lemma_le_round_trip(v, buf@[0], buf@[1], buf@[2], buf@[3]);
                    assert(buf@ =~= seq![buf@[0], buf@[1], buf@[2], buf@[3]]);
                    lemma_le_round_trip(v, 0, 0, 0, 0);
                    assert(le_bytes(v).len() == 4);
                }
                Ok(v)
            },
            Err(()) => Err(Error::SPIRead),
        }
    }

    fn write_sfr(&mut self, address: SFRAddress, value: u32) -> (r: Result<(), Error>)
        ensures
            final(self).trace() == old(self).trace().push(sfr_write(address, value, r is Ok)),
            r is Err ==> r == Err::<(), Error>(Error::SPIWrite),
    {
        let mut bytes: Vec<u8> = Vec::new();
        crate::message::push_le_bytes(&mut bytes, value);
        assert(bytes@ =~= le_bytes(value));
        match self.transfer_write(OPCODE_WRITE, address.address(), bytes.as_slice()) {
            Ok(()) => Ok(()),
            Err(()) => Err(Error::SPIWrite),
        }
    }

    /// Reads register `R`.
    pub fn read_register<R: Register>(&mut self) -> (r: Result<R, Error>)
        ensures
            final(self).trace() == old(self).trace().push(sfr_read(R::spec_address(), word_of(r))),
            read_result(sfr_read(R::spec_address(), word_of(r))) == word_of(r),
            r is Err ==> r == Err::<R, Error>(Error::SPIRead),
    {
        let address = R::get_address();
        match self.read_sfr(address) {
            Ok(w) => Ok(R::from_word(w)),
            Err(e) => Err(e),
        }
    }

    /// Writes the whole word of `value` to register `R`.
    pub fn write_register<R: Register>(&mut self, value: R) -> (r: Result<(), Error>)
        ensures
            final(self).trace() == old(self).trace().push(sfr_write(R::spec_address(), value.word(), r is Ok)),
            r is Err ==> r == Err::<(), Error>(Error::SPIWrite),
    {
        let address = R::get_address();
        let w = value.to_word();
        self.write_sfr(address, w)
    }

    /// Reads register `R`, applies `transform` and writes the result back.
    /// Not atomic: a flag that the chip sets between the read and the write
    /// is written back as read.
    pub fn modify_register<R: Register, F: FnOnce(R) -> R>(&mut self, transform: F) -> (r: Result<(), Error>)
        requires
            forall|x: R| transform.requires((x,)),
        ensures
            ({
                let t = final(self).trace().subrange(old(self).trace().len() as int, final(self).trace().len() as int);
                &&& final(self).trace().len() > old(self).trace().len()
                &&& final(self).trace().subrange(0, old(self).trace().len() as int) == old(self).trace()
                &&& starts_with_read(t, R::spec_address())
                &&& match read_result(t[0]) {
                    None => t.len() == 1 && r == Err::<(), Error>(Error::SPIRead),
                    Some(v) => exists|x: R, y: R|
                        x.word() == v && transform.ensures((x,), y) && t.len() == 2 && t[1] == sfr_write(
                            R::spec_address(),
                            y.word(),
                            r is Ok,
                        ) && (r is Err ==> r == Err::<(), Error>(Error::SPIWrite)),
                }
            }),
    {
        let ghost t0 = self.trace@;
        let register = match self.read_register::<R>() {
            Ok(x) => x,
            Err(e) => {
                assert(self.trace@.subrange(t0.len() as int, self.trace@.len() as int) =~= seq![self.trace@[t0.len() as int]]);
                assert(self.trace@.subrange(0, t0.len() as int) =~= t0);
                return Err(e);
            },
        };
        let value = transform(register);
        let r = self.write_register(value);
        proof {
            let t = self.trace@.subrange(t0.len() as int, self.trace@.len() as int);
            assert(self.trace@.subrange(0, t0.len() as int) =~= t0);
            assert(t =~= seq![self.trace@[t0.len() as int], self.trace@[t0.len() as int + 1]]);
        }
        r
    }

    /// Reads instance `index` of register `R`.
    pub fn read_repeated_register<R: RepeatedRegister>(&mut self, index: R::Index) -> (r: Result<R, Error>)
        ensures
            final(self).trace() == old(self).trace().push(sfr_read(R::spec_address_for(index), word_of(r))),
            read_result(sfr_read(R::spec_address_for(index), word_of(r))) == word_of(r),
            r is Err ==> r == Err::<R, Error>(Error::SPIRead),
    {
        let address = R::get_address_for(index);
        match self.read_sfr(address) {
            Ok(w) => Ok(R::from_word(w)),
            Err(e) => Err(e),
        }
    }

    /// Writes the whole word of `value` to instance `index` of register `R`.
    pub fn write_repeated_register<R: RepeatedRegister>(&mut self, index: R::Index, value: R) -> (r: Result<(), Error>)
        ensures
            final(self).trace() == old(self).trace().push(
                sfr_write(R::spec_address_for(index), value.word(), r is Ok),
            ),
            r is Err ==> r == Err::<(), Error>(Error::SPIWrite),
    {
        let address = R::get_address_for(index);
        let w = value.to_word();
        self.write_sfr(address, w)
    }

    /// Reads instance `index` of register `R`, applies `transform` and writes
    /// the result back; not atomic.
    pub fn modify_repeated_register<R: RepeatedRegister, F: FnOnce(R) -> R>(
        &mut self,
        index: R::Index,
        transform: F,
    ) -> (r: Result<(), Error>)
        requires
            forall|x: R| transform.requires((x,)),
        ensures
            ({
                let t = final(self).trace().subrange(old(self).trace().len() as int, final(self).trace().len() as int);
                &&& final(self).trace().len() > old(self).trace().len()
                &&& final(self).trace().subrange(0, old(self).trace().len() as int) == old(self).trace()
                &&& starts_with_read(t, R::spec_address_for(index))
                &&& match read_result(t[0]) {
                    None => t.len() == 1 && r == Err::<(), Error>(Error::SPIRead),
                    Some(v) => exists|x: R, y: R|
                        x.word() == v && transform.ensures((x,), y) && t.len() == 2 && t[1] == sfr_write(
                            R::spec_address_for(index),
                            y.word(),
                            r is Ok,
                        ) && (r is Err ==> r == Err::<(), Error>(Error::SPIWrite)),
                }
            }),
    {
        let ghost t0 = self.trace@;
        let register = match self.read_repeated_register::<R>(index) {
            Ok(x) => x,
            Err(e) => {
                assert(self.trace@.subrange(t0.len() as int, self.trace@.len() as int) =~= seq![self.trace@[t0.len() as int]]);
                assert(self.trace@.subrange(0, t0.len() as int) =~= t0);
                return Err(e);
            },
        };
        let value = transform(register);
        let r = self.write_repeated_register(index, value);
        proof {
            let t = self.trace@.subrange(t0.len() as int, self.trace@.len() as int);
            assert(self.trace@.subrange(0, t0.len() as int) =~= t0);
            assert(t =~= seq![self.trace@[t0.len() as int], self.trace@[t0.len() as int + 1]]);
        }
        r
    }

    /// Reads `len` bytes of RAM at `address`. The range must lie in RAM and
    /// `len` must be a multiple of 4; otherwise nothing is sent.
    pub fn read_ram(&mut self, address: u16, len: usize) -> (r: Result<Vec<u8>, Error>)
        ensures
            !ram_range_ok(address as u32, len) ==> r == Err::<Vec<u8>, Error>(Error::InvalidRamAddress(address))
                && final(self).trace() == old(self).trace(),
            ram_range_ok(address as u32, len) && len % 4 != 0 ==> r == Err::<Vec<u8>, Error>(
                Error::InvalidReadLength(len),
            ) && final(self).trace() == old(self).trace(),
            ram_range_ok(address as u32, len) && len % 4 == 0 ==> {
                &&& final(self).trace() == old(self).trace().push(read_op(address, len as nat, bytes_of(&r)))
                &&& r matches Ok(v) ==> v@.len() == len
                &&& r is Err ==> r == Err::<Vec<u8>, Error>(Error::SPIRead)
            },
    {
        if !is_valid_ram_address(address as u32, len) {
            return Err(Error::InvalidRamAddress(address));
        }
        if len % 4 != 0 {
            return Err(Error::InvalidReadLength(len));
        }
        match self.transfer_read(OPCODE_READ, address, len) {
            Ok(v) => Ok(v),
            Err(()) => Err(Error::SPIRead),
        }
    }

    /// Writes `data` to RAM at `address`. The range must lie in RAM and the
    /// length must be a multiple of 4; otherwise nothing is sent.
    pub fn write_ram(&mut self, address: u16, data: &[u8]) -> (r: Result<(), Error>)
        ensures
            !ram_range_ok(address as u32, data@.len() as usize) ==> r == Err::<(), Error>(
                Error::InvalidRamAddress(address),
            ) && final(self).trace() == old(self).trace(),
            ram_range_ok(address as u32, data@.len() as usize) && data@.len() % 4 != 0 ==> r == Err::<
                (),
                Error,
            >(Error::InvalidWriteLength(data@.len() as usize)) && final(self).trace() == old(self).trace(),
            ram_range_ok(address as u32, data@.len() as usize) && data@.len() % 4 == 0 ==> {
                &&& final(self).trace() == old(self).trace().push(write_op(address, data@, r is Ok))
                &&& r is Err ==> r == Err::<(), Error>(Error::SPIWrite)
            },
    {
        if !is_valid_ram_address(address as u32, data.len()) {
            return Err(Error::InvalidRamAddress(address));
        }
        if data.len() % 4 != 0 {
            return Err(Error::InvalidWriteLength(data.len()));
        }
        match self.transfer_write(OPCODE_WRITE, address, data) {
            Ok(()) => Ok(()),
            Err(()) => Err(Error::SPIWrite),
        }
    }

    /// The transmit object for `msg`, cut to a multiple of four bytes.
    fn tx_object(msg: &TxMessage) -> (r: Vec<u8>)
        requires
            msg.wf(),
        ensures
            r@ == tx_object_bytes(*msg),
            r@.len() == round_up4(8 + msg.spec_data().len()),
            r@.len() % 4 == 0,
    {
        let (length, mut bytes) = msg.as_bytes();
        let padded = (length + 3) / 4 * 4;
        bytes.truncate(padded);
        bytes
    }

    /// Checks the payload capacity and the not-full flag, then writes the
    /// object at the user address and sets the increment bit in `ctl`.
    #[verifier::rlimit(60)]
    fn push_checked(
        &mut self,
        ctl: SFRAddress,
        control: u32,
        sta: SFRAddress,
        ua: SFRAddress,
        msg: &TxMessage,
    ) -> (r: Result<(), Error>)
        requires
            msg.wf(),
        ensures
            appended(final(self).trace(), old(self).trace()),
            push_after_control(suffix(final(self).trace(), old(self).trace()), 0, *msg, ctl, control, sta, ua, r),
    {
        let ghost t0 = self.trace@;
        let capacity = FifoControlRegister(control).payload_size().num_bytes();
        if capacity < msg.data().len() {
            assert(suffix(self.trace@, t0) =~= Seq::<BusOp>::empty());
            assert(self.trace@.subrange(0, t0.len() as int) =~= t0);
            return Err(Error::FifoTooSmall);
        }
        let status = match self.read_sfr(sta) {
            Ok(w) => w,
            Err(e) => {
                assert(suffix(self.trace@, t0) =~= seq![self.trace@[t0.len() as int]]);
                assert(self.trace@.subrange(0, t0.len() as int) =~= t0);
                return Err(e);
            },
        };
        if !crate::bits::get_flag(status, 0) {
            assert(suffix(self.trace@, t0) =~= seq![self.trace@[t0.len() as int]]);
            assert(self.trace@.subrange(0, t0.len() as int) =~= t0);
            return Err(Error::FifoFull);
        }
        let pointer = match self.read_sfr(ua) {
            Ok(w) => w,
            Err(e) => {
                assert(suffix(self.trace@, t0) =~= seq![self.trace@[t0.len() as int], self.trace@[t0.len() as int + 1]]);
                assert(self.trace@.subrange(0, t0.len() as int) =~= t0);
                return Err(e);
            },
        };
        let address = #[verifier::truncate] (UserAddressRegister(pointer).calculate_ram_address() as u16);
        let bytes = Self::tx_object(msg);
        let ghost t2 = self.trace@;
        match self.write_ram(address, bytes.as_slice()) {
            Ok(()) => {},
            Err(e) => {
                assert(suffix(self.trace@, t0) =~= t2.subrange(t0.len() as int, t2.len() as int) + suffix(self.trace@, t2));
                assert(suffix(self.trace@, t0) =~= seq![self.trace@[t0.len() as int], self.trace@[t0.len() as int + 1]]
                    + suffix(self.trace@, t2));
                assert(self.trace@.subrange(0, t0.len() as int) =~= t0);
                return Err(e);
            },
        }
        let r = self.write_sfr(ctl, crate::bits::put_flag(control, 8, true));
        assert(suffix(self.trace@, t0) =~= seq![
            self.trace@[t0.len() as int],
            self.trace@[t0.len() as int + 1],
            self.trace@[t0.len() as int + 2],
            self.trace@[t0.len() as int + 3],
        ]);
        assert(self.trace@.subrange(0, t0.len() as int) =~= t0);
        r
    }

    /// Pushes `msg` into the transmit queue without requesting transmission.
    /// Fails, before writing anything, when the queue is disabled, when the
    /// payload exceeds the queue's payload size, or when the queue is full.
    #[verifier::rlimit(60)]
    pub fn tx_queue_push_message(&mut self, message: &TxMessage) -> (r: Result<(), Error>)
        requires
            message.wf(),
        ensures
            appended(final(self).trace(), old(self).trace()),
            tx_queue_push_spec(suffix(final(self).trace(), old(self).trace()), *message, r),
    {
        let ghost t0 = self.trace@;
        let con = match self.read_register::<CanControlRegister>() {
            Ok(c) => c,
            Err(e) => {
                assert(suffix(self.trace@, t0) =~= seq![self.trace@[t0.len() as int]]);
                assert(self.trace@.subrange(0, t0.len() as int) =~= t0);
                return Err(e);
            },
        };
        if !con.txqen() {
            assert(suffix(self.trace@, t0) =~= seq![self.trace@[t0.len() as int]]);
            assert(self.trace@.subrange(0, t0.len() as int) =~= t0);
            return Err(Error::TxQueueDisabled);
        }
        let control = match self.read_register::<TxQueueControlRegister>() {
            Ok(c) => c,
            Err(e) => {
                assert(suffix(self.trace@, t0) =~= seq![self.trace@[t0.len() as int], self.trace@[t0.len() as int + 1]]);
                assert(self.trace@.subrange(0, t0.len() as int) =~= t0);
                return Err(e);
            },
        };
        let ghost t1 = self.trace@;
        let r = self.push_checked(
            SFRAddress::C1TXQCON,
            control.0,
            SFRAddress::C1TXQSTA,
            SFRAddress::C1TXQUA,
            message,
        );
        proof {
            let t = suffix(self.trace@, t0);
            let u = suffix(self.trace@, t1);
            assert(t =~= seq![self.trace@[t0.len() as int], self.trace@[t0.len() as int + 1]] + u);
            assert forall|k: int| 0 <= k < u.len() implies t[k + 2] == u[k] by {}
            lemma_push_after_control_shift(t, u, 2, *message, SFRAddress::C1TXQCON, control.0,
                SFRAddress::C1TXQSTA, SFRAddress::C1TXQUA, r);
            assert(self.trace@.subrange(0, t0.len() as int) =~= t0);
        }
        r
    }

    /// Reads register `a`, sets bit `bit` to `value` and writes it back.
    fn modify_flag(&mut self, a: SFRAddress, bit: u32, value: bool) -> (r: Result<(), Error>)
        requires
            bit < 32,
        ensures
            appended(final(self).trace(), old(self).trace()),
            modify_spec(suffix(final(self).trace(), old(self).trace()), a, |w: u32| with_flag(w, bit, value), r),
    {
        let ghost t0 = self.trace@;
        let w = match self.read_sfr(a) {
            Ok(w) => w,
            Err(e) => {
                assert(suffix(self.trace@, t0) =~= seq![self.trace@[t0.len() as int]]);
                assert(self.trace@.subrange(0, t0.len() as int) =~= t0);
                return Err(e);
            },
        };
        let r = self.write_sfr(a, crate::bits::put_flag(w, bit, value));
        assert(suffix(self.trace@, t0) =~= seq![self.trace@[t0.len() as int], self.trace@[t0.len() as int + 1]]);
        assert(self.trace@.subrange(0, t0.len() as int) =~= t0);
        r
    }

    /// Pushes `message` into transmit FIFO `fifo_number` without requesting
    /// transmission. Fails, before writing anything, when the FIFO is not a
    /// transmit FIFO, when the payload exceeds its payload size, or when it
    /// is full.
    pub fn tx_fifo_push_message(&mut self, fifo_number: FifoNumber, message: &TxMessage) -> (r: Result<(), Error>)
        requires
            message.wf(),
        ensures
            appended(final(self).trace(), old(self).trace()),
            tx_fifo_push_spec(suffix(final(self).trace(), old(self).trace()), fifo_number, *message, r),
    {
        let ghost t0 = self.trace@;
        let control = match self.read_repeated_register::<FifoControlRegister>(fifo_number) {
            Ok(c) => c,
            Err(e) => {
                assert(suffix(self.trace@, t0) =~= seq![self.trace@[t0.len() as int]]);
                assert(self.trace@.subrange(0, t0.len() as int) =~= t0);
                return Err(e);
            },
        };
        if !control.txen() {
            assert(suffix(self.trace@, t0) =~= seq![self.trace@[t0.len() as int]]);
            assert(self.trace@.subrange(0, t0.len() as int) =~= t0);
            return Err(Error::FifoNotTx);
        }
        let ghost t1 = self.trace@;
        let r = self.push_checked(
            FifoControlRegister::get_address_for(fifo_number),
            control.0,
            FifoStatusRegister::get_address_for(fifo_number),
            UserAddressRegister::get_address_for(UserAddressKind::Fifo(fifo_number)),
            message,
        );
        proof {
            let t = suffix(self.trace@, t0);
            let u = suffix(self.trace@, t1);
            assert(t =~= seq![self.trace@[t0.len() as int]] + u);
            assert forall|k: int| 0 <= k < u.len() implies t[k + 1] == u[k] by {}
            lemma_push_after_control_shift(
                t,
                u,
                1,
                *message,
                FifoControlRegister::spec_address_for(fifo_number),
                control.0,
                FifoStatusRegister::spec_address_for(fifo_number),
                UserAddressRegister::spec_address_for(UserAddressKind::Fifo(fifo_number)),
                r,
            );
            assert(self.trace@.subrange(0, t0.len() as int) =~= t0);
        }
        r
    }

    /// Requests transmission of what the transmit queue holds (sets TXREQ).
    pub fn tx_queue_request_transmission(&mut self) -> (r: Result<(), Error>)
        ensures
            appended(final(self).trace(), old(self).trace()),
            modify_spec(
                suffix(final(self).trace(), old(self).trace()),
                SFRAddress::C1TXQCON,
                |w: u32| with_flag(w, 9, true),
                r,
            ),
    {
        self.modify_flag(SFRAddress::C1TXQCON, 9, true)
    }

    /// Requests transmission of what FIFO `fifo_number` holds (sets TXREQ).
    pub fn tx_fifo_request_transmission(&mut self, fifo_number: FifoNumber) -> (r: Result<(), Error>)
        ensures
            appended(final(self).trace(), old(self).trace()),
            modify_spec(
                suffix(final(self).trace(), old(self).trace()),
                FifoControlRegister::spec_address_for(fifo_number),
                |w: u32| with_flag(w, 9, true),
                r,
            ),
    {
        self.modify_flag(FifoControlRegister::get_address_for(fifo_number), 9, true)
    }

    /// Pushes `message` into the transmit queue, then requests transmission.
    /// Not atomic: a failed request leaves the frame queued.
    pub fn tx_queue_transmit_message(&mut self, message: &TxMessage) -> (r: Result<(), Error>)
        requires
            message.wf(),
        ensures
            appended(final(self).trace(), old(self).trace()),
            transmit_spec(
                suffix(final(self).trace(), old(self).trace()),
                SFRAddress::C1TXQCON,
                |t: Seq<BusOp>, p: Result<(), Error>| tx_queue_push_spec(t, *message, p),
                r,
            ),
    {
        let ghost t0 = self.trace@;
        let pushed = self.tx_queue_push_message(message);
        let ghost t1 = self.trace@;
        let ghost push = |t: Seq<BusOp>, p: Result<(), Error>| tx_queue_push_spec(t, *message, p);
        match pushed {
            Ok(()) => {},
            Err(e) => {
                proof {
                    let i = suffix(self.trace@, t0).len() as int;
                    assert(suffix(self.trace@, t0).subrange(0, i) =~= suffix(self.trace@, t0));
                    assert(push(suffix(self.trace@, t0).subrange(0, i), pushed));
                }
                return Err(e);
            },
        }
        let r = self.tx_queue_request_transmission();
        proof {
            let t = suffix(self.trace@, t0);
            let i = (t1.len() - t0.len()) as int;
            assert(t.subrange(0, i) =~= suffix(t1, t0));
            assert(t.subrange(i, t.len() as int) =~= suffix(self.trace@, t1));
            assert(push(t.subrange(0, i), pushed));
            assert(self.trace@.subrange(0, t0.len() as int) =~= t0);
        }
        r
    }

    /// Pushes `message` into FIFO `fifo_number`, then requests transmission.
    /// Not atomic: a failed request leaves the frame queued.
    pub fn tx_fifo_transmit_message(&mut self, fifo_number: FifoNumber, message: &TxMessage) -> (r: Result<(), Error>)
        requires
            message.wf(),
        ensures
            appended(final(self).trace(), old(self).trace()),
            transmit_spec(
                suffix(final(self).trace(), old(self).trace()),
                FifoControlRegister::spec_address_for(fifo_number),
                |t: Seq<BusOp>, p: Result<(), Error>| tx_fifo_push_spec(t, fifo_number, *message, p),
                r,
            ),
    {
        let ghost t0 = self.trace@;
        let pushed = self.tx_fifo_push_message(fifo_number, message);
        let ghost t1 = self.trace@;
        let ghost push = |t: Seq<BusOp>, p: Result<(), Error>| tx_fifo_push_spec(t, fifo_number, *message, p);
        match pushed {
            Ok(()) => {},
            Err(e) => {
                proof {
                    let i = suffix(self.trace@, t0).len() as int;
                    assert(suffix(self.trace@, t0).subrange(0, i) =~= suffix(self.trace@, t0));
                    assert(push(suffix(self.trace@, t0).subrange(0, i), pushed));
                }
                return Err(e);
            },
        }
        let r = self.tx_fifo_request_transmission(fifo_number);
        proof {
            let t = suffix(self.trace@, t0);
            let i = (t1.len() - t0.len()) as int;
            assert(t.subrange(0, i) =~= suffix(t1, t0));
            assert(t.subrange(i, t.len() as int) =~= suffix(self.trace@, t1));
            assert(push(t.subrange(0, i), pushed));
            assert(self.trace@.subrange(0, t0.len() as int) =~= t0);
        }
        r
    }

    /// Whether the transmit event FIFO holds an object (TEFNEIF).
    pub fn tx_event_fifo_has_next(&mut self) -> (r: Result<bool, Error>)
        ensures
            appended(final(self).trace(), old(self).trace()),
            tef_has_next_spec(suffix(final(self).trace(), old(self).trace()), r),
    {
        let ghost t0 = self.trace@;
        let r = match self.read_register::<TxEventFifoStatusRegister>() {
            Ok(status) => Ok(status.tefneif()),
            Err(e) => Err(e),
        };
        assert(suffix(self.trace@, t0) =~= seq![self.trace@[t0.len() as int]]);
        assert(self.trace@.subrange(0, t0.len() as int) =~= t0);
        r
    }

    /// Reads the next transmit event object, if there is one, without
    /// advancing the FIFO.
    #[verifier::rlimit(60)]
    pub fn tx_event_fifo_peek_next(&mut self) -> (r: Result<Option<TxEventObject>, Error>)
        ensures
            appended(final(self).trace(), old(self).trace()),
            tef_peek_spec(suffix(final(self).trace(), old(self).trace()), r),
            forall|k: int| 0 <= k < suffix(final(self).trace(), old(self).trace()).len() ==>
                suffix(final(self).trace(), old(self).trace())[k] is Read,
    {
        let ghost t0 = self.trace@;
        let status = match self.read_register::<TxEventFifoStatusRegister>() {
            Ok(st) => st,
            Err(e) => {
                assert(suffix(self.trace@, t0) =~= seq![self.trace@[t0.len() as int]]);
                assert(self.trace@.subrange(0, t0.len() as int) =~= t0);
                return Err(e);
            },
        };
        if !status.tefneif() {
            assert(suffix(self.trace@, t0) =~= seq![self.trace@[t0.len() as int]]);
            assert(self.trace@.subrange(0, t0.len() as int) =~= t0);
            return Ok(None);
        }
        let pointer = match self.read_repeated_register::<UserAddressRegister>(UserAddressKind::TxEventFifo) {
            Ok(ua) => ua,
            Err(e) => {
                assert(suffix(self.trace@, t0) =~= seq![self.trace@[t0.len() as int], self.trace@[t0.len() as int + 1]]);
                assert(self.trace@.subrange(0, t0.len() as int) =~= t0);
                return Err(e);
            },
        };
        let control = match self.read_register::<TxEventFifoControlRegister>() {
            Ok(c) => c,
            Err(e) => {
                assert(suffix(self.trace@, t0) =~= seq![self.trace@[t0.len() as int], self.trace@[t0.len() as int + 1], self.trace@[t0.len() as int + 2]]);
                assert(self.trace@.subrange(0, t0.len() as int) =~= t0);
                return Err(e);
            },
        };
        let slot = #[verifier::truncate] (pointer.calculate_ram_address() as u16);
        let with_timestamp = control.teftsen();
        let len: usize = if with_timestamp {
            12
        } else {
            8
        };
        let bytes = match self.read_ram(slot, len) {
            Ok(b) => b,
            Err(e) => {
                proof {
                    if !ram_range_ok(slot as u32, len) {
                        assert(suffix(self.trace@, t0) =~= seq![self.trace@[t0.len() as int], self.trace@[t0.len() as int + 1], self.trace@[t0.len() as int + 2]]);
                        assert(self.trace@.subrange(0, t0.len() as int) =~= t0);
                    } else {
                        assert(suffix(self.trace@, t0) =~= seq![self.trace@[t0.len() as int], self.trace@[t0.len() as int + 1], self.trace@[t0.len() as int + 2], self.trace@[t0.len() as int + 3]]);
                        assert(self.trace@.subrange(0, t0.len() as int) =~= t0);
                    }
                }
                return Err(e);
            },
        };
        let header = TxHeader([read_le_word(bytes.as_slice(), 0), read_le_word(bytes.as_slice(), 4)]);
        let timestamp = if with_timestamp {
            Some(read_le_word(bytes.as_slice(), 8))
        } else {
            None
        };
        assert(suffix(self.trace@, t0) =~= seq![self.trace@[t0.len() as int], self.trace@[t0.len() as int + 1], self.trace@[t0.len() as int + 2], self.trace@[t0.len() as int + 3]]);
        assert(self.trace@.subrange(0, t0.len() as int) =~= t0);
        Ok(Some(TxEventObject { header, timestamp }))
    }

    /// Reads the next transmit event object, if there is one, and advances
    /// the FIFO by setting the increment bit.
    pub fn tx_event_fifo_get_next(&mut self) -> (r: Result<Option<TxEventObject>, Error>)
        ensures
            appended(final(self).trace(), old(self).trace()),
            pop_spec(
                suffix(final(self).trace(), old(self).trace()),
                SFRAddress::C1TEFCON,
                |t: Seq<BusOp>, p: Result<Option<TxEventObject>, Error>| tef_peek_spec(t, p),
                r,
            ),
    {
        let ghost t0 = self.trace@;
        let peeked = self.tx_event_fifo_peek_next();
        let ghost t1 = self.trace@;
        let ghost peek = |t: Seq<BusOp>, p: Result<Option<TxEventObject>, Error>| tef_peek_spec(t, p);
        let obj = match peeked {
            Ok(Some(obj)) => obj,
            _ => {
                proof {
                    let i = suffix(self.trace@, t0).len() as int;
                    assert(suffix(self.trace@, t0).subrange(0, i) =~= suffix(self.trace@, t0));
                    assert(peek(suffix(self.trace@, t0).subrange(0, i), peeked));
                }
                return peeked;
            },
        };
        let w = self.modify_flag(SFRAddress::C1TEFCON, 8, true);
        proof {
            let t = suffix(self.trace@, t0);
            let i = (t1.len() - t0.len()) as int;
            assert(t.subrange(0, i) =~= suffix(t1, t0));
            assert(t.subrange(i, t.len() as int) =~= suffix(self.trace@, t1));
            assert(peek(t.subrange(0, i), peeked));
            assert(increment_spec(t.subrange(i, t.len() as int), SFRAddress::C1TEFCON, w));
            assert(self.trace@.subrange(0, t0.len() as int) =~= t0);
        }
        match w {
            Ok(()) => Ok(Some(obj)),
            Err(e) => Err(e),
        }
    }

    /// Whether receive FIFO `fifo_number` holds a frame; an error when it is
    /// a transmit FIFO.
    pub fn rx_fifo_has_next(&mut self, fifo_number: FifoNumber) -> (r: Result<bool, Error>)
        ensures
            appended(final(self).trace(), old(self).trace()),
            rx_has_next_spec(suffix(final(self).trace(), old(self).trace()), fifo_number, r),
    {
        let ghost t0 = self.trace@;
        let control = match self.read_repeated_register::<FifoControlRegister>(fifo_number) {
            Ok(c) => c,
            Err(e) => {
                assert(suffix(self.trace@, t0) =~= seq![self.trace@[t0.len() as int]]);
                assert(self.trace@.subrange(0, t0.len() as int) =~= t0);
                return Err(e);
            },
        };
        if control.txen() {
            assert(suffix(self.trace@, t0) =~= seq![self.trace@[t0.len() as int]]);
            assert(self.trace@.subrange(0, t0.len() as int) =~= t0);
            return Err(Error::FifoNotRx);
        }
        let r = match self.read_repeated_register::<FifoStatusRegister>(fifo_number) {
            Ok(status) => Ok(status.tfnrfnif()),
            Err(e) => Err(e),
        };
        assert(suffix(self.trace@, t0) =~= seq![self.trace@[t0.len() as int], self.trace@[t0.len() as int + 1]]);
        assert(self.trace@.subrange(0, t0.len() as int) =~= t0);
        r
    }

    /// Reads the payload of a frame with `header` at `address`: the length
    /// the header gives, rounded up to a multiple of four for the transfer.
    fn read_rx_payload(&mut self, address: u16, header: RxHeader, timestamp: Option<u32>) -> (r: Result<
        Option<RxMessage>,
        Error,
    >)
        ensures
            appended(final(self).trace(), old(self).trace()),
            rx_payload_spec(suffix(final(self).trace(), old(self).trace()), 0, address, header, timestamp, r),
    {
        let ghost t0 = self.trace@;
        proof {
            crate::bits::lemma_low_mask_values();
            crate::bits::lemma_field_bound(header.0[1], 0, 4);
        }
        let data_len = match len_for_dlc(header.dlc(), header.fdf()) {
            Some(l) => l,
            None => 0,
        };
        let read_len = (data_len + 3) / 4 * 4;
        let mut data: Vec<u8> = Vec::new();
        if read_len > 0 {
            data = match self.read_ram(address, read_len) {
                Ok(b) => b,
                Err(e) => {
                    proof {
                        if !ram_range_ok(address as u32, read_len) {
                            assert(suffix(self.trace@, t0) =~= Seq::<BusOp>::empty());
                            assert(self.trace@.subrange(0, t0.len() as int) =~= t0);
                        } else {
                            assert(suffix(self.trace@, t0) =~= seq![self.trace@[t0.len() as int]]);
                            assert(self.trace@.subrange(0, t0.len() as int) =~= t0);
                        }
                    }
                    return Err(e);
                },
            };
            data.truncate(data_len);
        }
        proof {
            if read_len > 0 {
                assert(suffix(self.trace@, t0) =~= seq![self.trace@[t0.len() as int]]);
                assert(self.trace@.subrange(0, t0.len() as int) =~= t0);
            } else {
                assert(suffix(self.trace@, t0) =~= Seq::<BusOp>::empty());
                assert(self.trace@.subrange(0, t0.len() as int) =~= t0);
            }
        }
        match RxMessage::new(header, timestamp, data.as_slice()) {
            Some(m) => {
                proof {
                    assert(rx_payload(header, data@) =~= data@);
                    if read_len == 0 {
                        assert(rx_payload(header, Seq::empty()) =~= data@);
                    }
                }
                Ok(Some(m))
            },
            None => Err(Error::Other),
        }
    }

    /// Reads the next frame of receive FIFO `fifo_number`, if there is one,
    /// without advancing the FIFO.
    #[verifier::rlimit(60)]
    pub fn rx_fifo_peek_next(&mut self, fifo_number: FifoNumber) -> (r: Result<Option<RxMessage>, Error>)
        ensures
            appended(final(self).trace(), old(self).trace()),
            rx_peek_spec(suffix(final(self).trace(), old(self).trace()), fifo_number, r),
    {
        let ghost t0 = self.trace@;
        let control = match self.read_repeated_register::<FifoControlRegister>(fifo_number) {
            Ok(c) => c,
            Err(e) => {
                assert(suffix(self.trace@, t0) =~= seq![self.trace@[t0.len() as int]]);
                assert(self.trace@.subrange(0, t0.len() as int) =~= t0);
                return Err(e);
            },
        };
        if control.txen() {
            assert(suffix(self.trace@, t0) =~= seq![self.trace@[t0.len() as int]]);
            assert(self.trace@.subrange(0, t0.len() as int) =~= t0);
            return Err(Error::FifoNotRx);
        }
        let status = match self.read_repeated_register::<FifoStatusRegister>(fifo_number) {
            Ok(st) => st,
            Err(e) => {
                assert(suffix(self.trace@, t0) =~= seq![self.trace@[t0.len() as int], self.trace@[t0.len() as int + 1]]);
                assert(self.trace@.subrange(0, t0.len() as int) =~= t0);
                return Err(e);
            },
        };
        if !status.tfnrfnif() {
            assert(suffix(self.trace@, t0) =~= seq![self.trace@[t0.len() as int], self.trace@[t0.len() as int + 1]]);
            assert(self.trace@.subrange(0, t0.len() as int) =~= t0);
            return Ok(None);
        }
        let pointer = match self.read_repeated_register::<UserAddressRegister>(UserAddressKind::Fifo(fifo_number)) {
            Ok(ua) => ua,
            Err(e) => {
                assert(suffix(self.trace@, t0) =~= seq![self.trace@[t0.len() as int], self.trace@[t0.len() as int + 1], self.trace@[t0.len() as int + 2]]);
                assert(self.trace@.subrange(0, t0.len() as int) =~= t0);
                return Err(e);
            },
        };
        let slot = #[verifier::truncate] (pointer.calculate_ram_address() as u16);
        let ghost t3 = self.trace@;
        let hb = match self.read_ram(slot, 8) {
            Ok(b) => b,
            Err(e) => {
                proof {
                    if !ram_range_ok(slot as u32, 8) {
                        assert(suffix(self.trace@, t0) =~= seq![self.trace@[t0.len() as int], self.trace@[t0.len() as int + 1], self.trace@[t0.len() as int + 2]]);
                        assert(self.trace@.subrange(0, t0.len() as int) =~= t0);
                    } else {
                        assert(suffix(self.trace@, t0) =~= seq![self.trace@[t0.len() as int], self.trace@[t0.len() as int + 1], self.trace@[t0.len() as int + 2], self.trace@[t0.len() as int + 3]]);
                        assert(self.trace@.subrange(0, t0.len() as int) =~= t0);
                    }
                }
                return Err(e);
            },
        };
        let header = RxHeader([read_le_word(hb.as_slice(), 0), read_le_word(hb.as_slice(), 4)]);
        let control = match self.read_repeated_register::<FifoControlRegister>(fifo_number) {
            Ok(c) => c,
            Err(e) => {
                assert(suffix(self.trace@, t0) =~= seq![self.trace@[t0.len() as int], self.trace@[t0.len() as int + 1], self.trace@[t0.len() as int + 2], self.trace@[t0.len() as int + 3], self.trace@[t0.len() as int + 4]]);
                assert(self.trace@.subrange(0, t0.len() as int) =~= t0);
                return Err(e);
            },
        };
        let mut timestamp: Option<u32> = None;
        let data_address: u16;
        let with_timestamp = control.rxtsen();
        if with_timestamp {
            let ts_address = ((slot as u32 + 8) % 0x10000) as u16;
            let tb = match self.read_ram(ts_address, 4) {
                Ok(b) => b,
                Err(e) => {
                    proof {
                        if !ram_range_ok(ts_address as u32, 4) {
                            assert(suffix(self.trace@, t0) =~= seq![self.trace@[t0.len() as int], self.trace@[t0.len() as int + 1], self.trace@[t0.len() as int + 2], self.trace@[t0.len() as int + 3], self.trace@[t0.len() as int + 4]]);
                            assert(self.trace@.subrange(0, t0.len() as int) =~= t0);
                        } else {
                            assert(suffix(self.trace@, t0) =~= seq![self.trace@[t0.len() as int], self.trace@[t0.len() as int + 1], self.trace@[t0.len() as int + 2], self.trace@[t0.len() as int + 3], self.trace@[t0.len() as int + 4], self.trace@[t0.len() as int + 5]]);
                            assert(self.trace@.subrange(0, t0.len() as int) =~= t0);
                        }
                    }
                    return Err(e);
                },
            };
            timestamp = Some(read_le_word(tb.as_slice(), 0));
            data_address = ((slot as u32 + 12) % 0x10000) as u16;
        } else {
            data_address = ((slot as u32 + 8) % 0x10000) as u16;
        }
        let ghost t5 = self.trace@;
        let r = self.read_rx_payload(data_address, header, timestamp);
        proof {
            let t = suffix(self.trace@, t0);
            let u = suffix(self.trace@, t5);
            let d = (t5.len() - t0.len()) as int;
            assert(t =~= suffix(t5, t0) + u);
            assert forall|k: int| 0 <= k < u.len() implies t[k + d] == u[k] by {}
            if u.len() > 0 {
                assert(t[d] == u[0]);
            }
            assert(t[0] == self.trace@[t0.len() as int]);
            assert(t[1] == self.trace@[t0.len() as int + 1]);
            assert(t[2] == self.trace@[t0.len() as int + 2]);
            assert(t[3] == self.trace@[t0.len() as int + 3]);
            assert(t[4] == self.trace@[t0.len() as int + 4]);
            if with_timestamp {
                assert(t[5] == self.trace@[t0.len() as int + 5]);
            }
            assert(self.trace@.subrange(0, t0.len() as int) =~= t0);
        }
        r
    }

    /// Reads the next frame of receive FIFO `fifo_number`, if there is one,
    /// and advances the FIFO by setting the increment bit.
    pub fn rx_fifo_get_next(&mut self, fifo_number: FifoNumber) -> (r: Result<Option<RxMessage>, Error>)
        ensures
            appended(final(self).trace(), old(self).trace()),
            pop_spec(
                suffix(final(self).trace(), old(self).trace()),
                FifoControlRegister::spec_address_for(fifo_number),
                |t: Seq<BusOp>, p: Result<Option<RxMessage>, Error>| rx_peek_spec(t, fifo_number, p),
                r,
            ),
    {
        let ghost t0 = self.trace@;
        let peeked = self.rx_fifo_peek_next(fifo_number);
        let ghost t1 = self.trace@;
        let ghost peek = |t: Seq<BusOp>, p: Result<Option<RxMessage>, Error>| rx_peek_spec(t, fifo_number, p);
        let msg = match peeked {
            Ok(Some(m)) => m,
            _ => {
                proof {
                    let i = suffix(self.trace@, t0).len() as int;
                    assert(suffix(self.trace@, t0).subrange(0, i) =~= suffix(self.trace@, t0));
                    assert(peek(suffix(self.trace@, t0).subrange(0, i), peeked));
                }
                return peeked;
            },
        };
        let ghost peeked_copy = Ok::<Option<RxMessage>, Error>(Some(msg));
        let w = self.modify_flag(FifoControlRegister::get_address_for(fifo_number), 8, true);
        proof {
            let t = suffix(self.trace@, t0);
            let i = (t1.len() - t0.len()) as int;
            assert(t.subrange(0, i) =~= suffix(t1, t0));
            assert(t.subrange(i, t.len() as int) =~= suffix(self.trace@, t1));
            assert(peek(t.subrange(0, i), peeked_copy));
            assert(increment_spec(
                t.subrange(i, t.len() as int),
                FifoControlRegister::spec_address_for(fifo_number),
                w,
            ));
            assert(self.trace@.subrange(0, t0.len() as int) =~= t0);
        }
        match w {
            Ok(()) => Ok(Some(msg)),
            Err(e) => Err(e),
        }
    }

    /// Reads register `a` for the configuration sequence.
    fn cfg_read(&mut self, a: SFRAddress) -> (r: Result<u32, ConfigError>)
        ensures
            final(self).trace() == old(self).trace().push(sfr_read(a, r.ok())),
            read_result(sfr_read(a, r.ok())) == r.ok(),
            r is Err ==> r == Err::<u32, ConfigError>(ConfigError::ConfigurationModeTimeout),
    {
        match self.read_sfr(a) {
            Ok(w) => Ok(w),
            Err(_) => Err(ConfigError::ConfigurationModeTimeout),
        }
    }

    /// Writes register `a` for the configuration sequence.
    fn cfg_write(&mut self, a: SFRAddress, w: u32) -> (r: Result<(), ConfigError>)
        ensures
            final(self).trace() == old(self).trace().push(sfr_write(a, w, r is Ok)),
            write_ok(sfr_write(a, w, r is Ok)) == r is Ok,
            r is Err ==> r == Err::<(), ConfigError>(ConfigError::ConfigurationModeTimeout),
    {
        match self.write_sfr(a, w) {
            Ok(()) => Ok(()),
            Err(_) => Err(ConfigError::ConfigurationModeTimeout),
        }
    }

    fn delay_and_record<D: DelayUs>(&mut self, delay: &mut D, us: u32)
        ensures
            final(self).trace() == old(self).trace().push(BusOp::Delay { us }),
    {
        delay.delay_us(us);
        self.trace = Ghost(self.trace@.push(BusOp::Delay { us }));
    }

    /// Polls the control register until it reports `mode`.
    fn poll_op_mode<D: DelayUs>(&mut self, mode: OperationMode, delay: &mut D, attempts: usize) -> (r: Result<(), ConfigError>)
        requires
            attempts >= 1,
        ensures
            appended(final(self).trace(), old(self).trace()),
            poll_spec(
                suffix(final(self).trace(), old(self).trace()),
                SFRAddress::C1CON,
                |w: u32| reported_mode(w) == mode,
                attempts as nat,
                ConfigError::ChangeOpModeTimeout,
                r,
            ),
        decreases attempts,
    {
        let ghost t0 = self.trace@;
        let w = match self.cfg_read(SFRAddress::C1CON) {
            Ok(w) => w,
            Err(e) => {
                assert(suffix(self.trace@, t0) =~= seq![self.trace@[t0.len() as int]]);
                assert(self.trace@.subrange(0, t0.len() as int) =~= t0);
                return Err(e);
            },
        };
        if CanControlRegister(w).opmode() == mode {
            assert(suffix(self.trace@, t0) =~= seq![self.trace@[t0.len() as int]]);
            assert(self.trace@.subrange(0, t0.len() as int) =~= t0);
            return Ok(());
        }
        if attempts <= 1 {
            assert(suffix(self.trace@, t0) =~= seq![self.trace@[t0.len() as int]]);
            assert(self.trace@.subrange(0, t0.len() as int) =~= t0);
            return Err(ConfigError::ChangeOpModeTimeout);
        }
        self.delay_and_record(delay, 500);
        let ghost t2 = self.trace@;
        let r = self.poll_op_mode(mode, delay, attempts - 1);
        proof {
            let t = suffix(self.trace@, t0);
            assert(t.subrange(2, t.len() as int) =~= suffix(self.trace@, t2));
            assert(t[0] == t2[t0.len() as int]);
            assert(t[1] == t2[t0.len() as int + 1]);
            assert(self.trace@.subrange(0, t0.len() as int) =~= t0);
        }
        r
    }

    /// Polls the oscillator register until the PLL reports ready.
    fn poll_pll_ready<D: DelayUs>(&mut self, delay: &mut D, attempts: usize) -> (r: Result<(), ConfigError>)
        requires
            attempts >= 1,
        ensures
            appended(final(self).trace(), old(self).trace()),
            poll_spec(
                suffix(final(self).trace(), old(self).trace()),
                SFRAddress::OSC,
                |w: u32| flag(w, 8),
                attempts as nat,
                ConfigError::PLLNotReady,
                r,
            ),
        decreases attempts,
    {
        let ghost t0 = self.trace@;
        let w = match self.cfg_read(SFRAddress::OSC) {
            Ok(w) => w,
            Err(e) => {
                assert(suffix(self.trace@, t0) =~= seq![self.trace@[t0.len() as int]]);
                assert(self.trace@.subrange(0, t0.len() as int) =~= t0);
                return Err(e);
            },
        };
        if OscillatorControlRegister(w).pllrdy() {
            assert(suffix(self.trace@, t0) =~= seq![self.trace@[t0.len() as int]]);
            assert(self.trace@.subrange(0, t0.len() as int) =~= t0);
            return Ok(());
        }
        if attempts <= 1 {
            assert(suffix(self.trace@, t0) =~= seq![self.trace@[t0.len() as int]]);
            assert(self.trace@.subrange(0, t0.len() as int) =~= t0);
            return Err(ConfigError::PLLNotReady);
        }
        self.delay_and_record(delay, 500);
        let ghost t2 = self.trace@;
        let r = self.poll_pll_ready(delay, attempts - 1);
        proof {
            let t = suffix(self.trace@, t0);
            assert(t.subrange(2, t.len() as int) =~= suffix(self.trace@, t2));
            assert(t[0] == t2[t0.len() as int]);
            assert(t[1] == t2[t0.len() as int + 1]);
            assert(self.trace@.subrange(0, t0.len() as int) =~= t0);
        }
        r
    }

    /// The operating mode the controller reports.
    pub fn get_op_mode(&mut self) -> (r: Result<OperationMode, Error>)
        ensures
            final(self).trace().len() == old(self).trace().len() + 1,
            final(self).trace().drop_last() == old(self).trace(),
            read_at(final(self).trace(), old(self).trace().len() as int, SFRAddress::C1CON),
            match read_result(final(self).trace().last()) {
                None => r == Err::<OperationMode, Error>(Error::SPIRead),
                Some(w) => r == Ok::<OperationMode, Error>(reported_mode(w)),
            },
    {
        let r = match self.read_register::<CanControlRegister>() {
            Ok(c) => Ok(c.opmode()),
            Err(e) => Err(e),
        };
        assert(self.trace@.drop_last() =~= old(self).trace@);
        r
    }

    /// Requests operating mode `op_mode`, then polls up to five times, 500 µs
    /// apart, until the controller reports it. Gives up with
    /// `ChangeOpModeTimeout`; a failed transfer gives `ConfigurationModeTimeout`.
    pub fn set_op_mode<D: DelayUs>(&mut self, op_mode: OperationMode, delay: &mut D) -> (r: Result<(), ConfigError>)
        ensures
            appended(final(self).trace(), old(self).trace()),
            set_op_mode_spec(suffix(final(self).trace(), old(self).trace()), op_mode, r),
    {
        let ghost t0 = self.trace@;
        let ghost request = |u: Seq<BusOp>, q: Result<(), ConfigError>|
            modify_chain(u, seq![(SFRAddress::C1CON, |w: u32| with_field(w, 24, 3, op_mode.spec_value() as u32))], q);
        let ghost poll = |u: Seq<BusOp>, q: Result<(), ConfigError>|
            poll_spec(u, SFRAddress::C1CON, |w: u32| reported_mode(w) == op_mode, 5, ConfigError::ChangeOpModeTimeout, q);
        let w = match self.cfg_read(SFRAddress::C1CON) {
            Ok(w) => w,
            Err(e) => {
                proof {
                    let t = suffix(self.trace@, t0);
                    assert(t =~= seq![self.trace@[t0.len() as int]]);
                    assert(t.subrange(0, 1) =~= t);
                    assert(request(t.subrange(0, 1), Err(e)));
                    lemma_then_intro(t, request, poll, 1, Err(e), Err(e));
                    assert(self.trace@.subrange(0, t0.len() as int) =~= t0);
                }
                return Err(e);
            },
        };
        let mut c1con = CanControlRegister(w);
        c1con.set_opmode(op_mode);
        let written = self.cfg_write(SFRAddress::C1CON, c1con.0);
        let ghost t2 = self.trace@;
        proof {
            let u = suffix(t2, t0);
            assert(u =~= seq![t2[t0.len() as int], t2[t0.len() as int + 1]]);
            assert(u.subrange(2, u.len() as int) =~= Seq::<BusOp>::empty());
            reveal_with_fuel(modify_chain, 2);
            let steps = seq![(SFRAddress::C1CON, |w: u32| with_field(w, 24, 3, op_mode.spec_value() as u32))];
            assert(steps.drop_first() =~= Seq::<(SFRAddress, spec_fn(u32) -> u32)>::empty());
            assert((steps[0].1)(w) == c1con.0);
            assert(read_result(u[0]) == Some(w));
            assert(u[1] == sfr_write(SFRAddress::C1CON, c1con.0, written is Ok));
            assert(write_ok(u[1]) == written is Ok);
            assert(steps[0].0 == SFRAddress::C1CON);
            assert(read_at(u, 0, steps[0].0));
            if written is Ok {
                assert(steps.drop_first().len() == 0);
                assert(u.subrange(2, u.len() as int).len() == 0);
                assert(modify_chain(u.subrange(2, u.len() as int), steps.drop_first(), written));
            }
            assert(modify_chain(u, steps, written));
            assert(request(u, written));
        }
        if let Err(e) = written {
            proof {
                let t = suffix(self.trace@, t0);
                assert(t.subrange(0, 2) =~= t);
                lemma_then_intro(t, request, poll, 2, written, Err(e));
                assert(self.trace@.subrange(0, t0.len() as int) =~= t0);
            }
            return Err(e);
        }
        let r = self.poll_op_mode(op_mode, delay, 5);
        proof {
            let t = suffix(self.trace@, t0);
            assert(t.subrange(0, 2) =~= suffix(t2, t0));
            assert(t.subrange(2, t.len() as int) =~= suffix(self.trace@, t2));
            lemma_then_intro(t, request, poll, 2, written, r);
            assert(self.trace@.subrange(0, t0.len() as int) =~= t0);
        }
        r
    }

    /// One step of a read-modify-write chain: reads `a`, computes the new
    /// word with `compute` and writes it back.
    fn chain_modify<F: Fn(u32) -> u32>(
        &mut self,
        a: SFRAddress,
        compute: F,
        f: Ghost<spec_fn(u32) -> u32>,
        t0: Ghost<Seq<BusOp>>,
        done: Ghost<Seq<(SFRAddress, spec_fn(u32) -> u32)>>,
        prev: Ghost<Result<(), ConfigError>>,
    ) -> (r: Result<(), ConfigError>)
        requires
            appended(old(self).trace(), t0@),
            prev@ is Ok,
            modify_chain(suffix(old(self).trace(), t0@), done@, prev@),
            forall|w: u32| compute.requires((w,)),
            forall|w: u32, y: u32| compute.ensures((w,), y) ==> y == f@(w),
        ensures
            appended(final(self).trace(), t0@),
            modify_chain(suffix(final(self).trace(), t0@), done@.push((a, f@)), r),
    {
        let ghost t1 = self.trace@;
        let w = match self.cfg_read(a) {
            Ok(w) => w,
            Err(e) => {
                proof {
                    let u = suffix(self.trace@, t1);
                    assert(u =~= seq![self.trace@[t1.len() as int]]);
                    assert(modify_chain(u, seq![(a, f@)], Err(e)));
                    lemma_chain_append(suffix(t1, t0@), done@, u, (a, f@), prev@, Err(e));
                    assert(suffix(t1, t0@) + u =~= suffix(self.trace@, t0@));
                    assert(self.trace@.subrange(0, t0@.len() as int) =~= t0@);
                }
                return Err(e);
            },
        };
        let nw = compute(w);
        let r = self.cfg_write(a, nw);
        proof {
            let u = suffix(self.trace@, t1);
            assert(u =~= seq![self.trace@[t1.len() as int], self.trace@[t1.len() as int + 1]]);
            reveal_with_fuel(modify_chain, 2);
            assert(seq![(a, f@)].drop_first() =~= Seq::<(SFRAddress, spec_fn(u32) -> u32)>::empty());
            assert(u.subrange(2, u.len() as int) =~= Seq::<BusOp>::empty());
            assert(modify_chain(u, seq![(a, f@)], r));
            lemma_chain_append(suffix(t1, t0@), done@, u, (a, f@), prev@, r);
            assert(suffix(t1, t0@) + u =~= suffix(self.trace@, t0@));
            assert(self.trace@.subrange(0, t0@.len() as int) =~= t0@);
        }
        r
    }

    /// Writes the pin settings (IOCON) with one read-modify-write.
    pub fn configure_io(&mut self, io_config: IoConfiguration) -> (r: Result<(), ConfigError>)
        ensures
            appended(final(self).trace(), old(self).trace()),
            modify_chain(suffix(final(self).trace(), old(self).trace()), io_steps(io_config), r),
    {
        let ghost t0 = self.trace@;
        let ghost steps = io_steps(io_config);
        proof {
            assert(suffix(self.trace@, t0) =~= Seq::<BusOp>::empty());
            assert(self.trace@.subrange(0, t0.len() as int) =~= t0);
            assert(steps.take(0) =~= Seq::<(SFRAddress, spec_fn(u32) -> u32)>::empty());
        }
        let compute = |w: u32| -> (y: u32)
            ensures
                y == io_word(w, io_config),
            {
                let mut iocon = IoControlRegister(w);
                iocon.set_xstbyen(io_config.enable_tx_standby_pin);
                iocon.set_txcanod(io_config.tx_can_open_drain);
                iocon.set_sof(io_config.start_of_frame_on_clko);
                iocon.set_intod(io_config.interrupt_pin_open_drain);
                iocon.0
        };
        let r = self.chain_modify(
            SFRAddress::IOCON,
            compute,
            Ghost(steps[0].1),
            Ghost(t0),
            Ghost(steps.take(0)),
            Ghost(Ok::<(), ConfigError>(())),
        );
        proof {
            assert(steps.take(0).push((SFRAddress::IOCON, steps[0].1)) =~= steps.take(1));
            if r is Err {
                lemma_chain_err_extend(suffix(self.trace@, t0), steps.take(1), steps.skip(1), r);
                assert(steps.take(1) + steps.skip(1) =~= steps);
            }
            assert(steps.take(1) =~= steps);
        }
        r
    }

    /// Writes nominal timing, data timing and automatic delay compensation,
    /// one read-modify-write each.
    #[verifier::rlimit(60)]
    pub fn configure_bit_timing(&mut self, bit_time_config: BitTimeConfiguration) -> (r: Result<(), ConfigError>)
        ensures
            appended(final(self).trace(), old(self).trace()),
            modify_chain(suffix(final(self).trace(), old(self).trace()), bit_timing_steps(bit_time_config), r),
    {
        let nominal = bit_time_config.nominal;
        let data = bit_time_config.data;
        let ghost t0 = self.trace@;
        let ghost steps = bit_timing_steps(bit_time_config);
        proof {
            assert(suffix(self.trace@, t0) =~= Seq::<BusOp>::empty());
            assert(self.trace@.subrange(0, t0.len() as int) =~= t0);
            assert(steps.take(0) =~= Seq::<(SFRAddress, spec_fn(u32) -> u32)>::empty());
        }
        let compute = |w: u32| -> (y: u32)
            ensures
                y == nbt_word(w, nominal),
            {
                let mut c = NominalBitTimeConfigurationRegister(w);
                c.set_brp(nominal.baud_rate_prescaler);
                c.set_tseg1(nominal.time_segment_1);
                c.set_tseg2(nominal.time_segment_2);
                c.set_sjw(nominal.synchronization_jump_width);
                c.0
        };
        let r = self.chain_modify(
            SFRAddress::C1NBTCFG,
            compute,
            Ghost(steps[0].1),
            Ghost(t0),
            Ghost(steps.take(0)),
            Ghost(Ok::<(), ConfigError>(())),
        );
        proof {
            assert(steps.take(0).push((SFRAddress::C1NBTCFG, steps[0].1)) =~= steps.take(1));
            if r is Err {
                lemma_chain_err_extend(suffix(self.trace@, t0), steps.take(1), steps.skip(1), r);
                assert(steps.take(1) + steps.skip(1) =~= steps);
            }
        }
        if r.is_err() {
            return r;
        }
        let compute = |w: u32| -> (y: u32)
            ensures
                y == dbt_word(w, data),
            {
                let mut c = DataBitTimeConfigurationRegister(w);
                c.set_brp(data.baud_rate_prescaler);
                c.set_tseg1(data.time_segment_1);
                c.set_tseg2(data.time_segment_2);
                c.set_sjw(data.synchronization_jump_width);
                c.0
        };
        let r = self.chain_modify(
            SFRAddress::C1DBTCFG,
            compute,
            Ghost(steps[1].1),
            Ghost(t0),
            Ghost(steps.take(1)),
            Ghost(r),
        );
        proof {
            assert(steps.take(1).push((SFRAddress::C1DBTCFG, steps[1].1)) =~= steps.take(2));
            if r is Err {
                lemma_chain_err_extend(suffix(self.trace@, t0), steps.take(2), steps.skip(2), r);
                assert(steps.take(2) + steps.skip(2) =~= steps);
            }
        }
        if r.is_err() {
            return r;
        }
        let compute = |w: u32| -> (y: u32)
            ensures
                y == tdc_word(w, data),
            {
                let mut c = TransmitterDelayCompensationRegister(w);
                c.set_tdcmod(TransmitterDelayCompensationMode::Automatic);
                c.set_tdco(data.transmitter_delay_compensation_offset);
                c.set_tdcv(0);
                c.0
        };
        let r = self.chain_modify(
            SFRAddress::C1TDC,
            compute,
            Ghost(steps[2].1),
            Ghost(t0),
            Ghost(steps.take(2)),
            Ghost(r),
        );
        proof {
            assert(steps.take(2).push((SFRAddress::C1TDC, steps[2].1)) =~= steps.take(3));
            if r is Err {
                lemma_chain_err_extend(suffix(self.trace@, t0), steps.take(3), steps.skip(3), r);
                assert(steps.take(3) + steps.skip(3) =~= steps);
            }
            assert(steps.take(3) =~= steps);
        }
        r
    }

    /// Enables or disables the transmit event FIFO (STEF), then, when
    /// enabled, sets its depth, timestamps and interrupts. A depth of 0 or
    /// above 32 gives 32.
    #[verifier::rlimit(60)]
    pub fn configure_tx_event_fifo(&mut self, tx_event_fifo_config: Option<TxEventFifoConfiguration>) -> (r: Result<
        (),
        ConfigError,
    >)
        ensures
            appended(final(self).trace(), old(self).trace()),
            modify_chain(suffix(final(self).trace(), old(self).trace()), tef_steps(tx_event_fifo_config), r),
    {
        let ghost t0 = self.trace@;
        let ghost steps = tef_steps(tx_event_fifo_config);
        proof {
            assert(suffix(self.trace@, t0) =~= Seq::<BusOp>::empty());
            assert(self.trace@.subrange(0, t0.len() as int) =~= t0);
            assert(steps.take(0) =~= Seq::<(SFRAddress, spec_fn(u32) -> u32)>::empty());
        }
        match tx_event_fifo_config {
            None => {
            let compute = |w: u32| -> (y: u32)
                ensures
                    y == with_flag(w, 19, false),
                {
                    crate::bits::put_flag(w, 19, false)
            };
            let r = self.chain_modify(
                SFRAddress::C1CON,
                compute,
                Ghost(steps[0].1),
                Ghost(t0),
                Ghost(steps.take(0)),
                Ghost(Ok::<(), ConfigError>(())),
            );
            proof {
                assert(steps.take(0).push((SFRAddress::C1CON, steps[0].1)) =~= steps.take(1));
                if r is Err {
                    lemma_chain_err_extend(suffix(self.trace@, t0), steps.take(1), steps.skip(1), r);
                    assert(steps.take(1) + steps.skip(1) =~= steps);
                }
                assert(steps.take(1) =~= steps);
            }
            r
            },
            Some(c) => {
            let compute = |w: u32| -> (y: u32)
                ensures
                    y == with_flag(w, 19, true),
                {
                    crate::bits::put_flag(w, 19, true)
            };
            let r = self.chain_modify(
                SFRAddress::C1CON,
                compute,
                Ghost(steps[0].1),
                Ghost(t0),
                Ghost(steps.take(0)),
                Ghost(Ok::<(), ConfigError>(())),
            );
            proof {
                assert(steps.take(0).push((SFRAddress::C1CON, steps[0].1)) =~= steps.take(1));
                if r is Err {
                    lemma_chain_err_extend(suffix(self.trace@, t0), steps.take(1), steps.skip(1), r);
                    assert(steps.take(1) + steps.skip(1) =~= steps);
                }
            }
            if r.is_err() {
                return r;
            }
            let compute = |w: u32| -> (y: u32)
                ensures
                    y == tef_word(w, c),
                {
                    let mut tef = TxEventFifoControlRegister(w);
                    tef.set_fifo_size(c.fifo_size);
                    tef.set_teftsen(c.enable_timestamps);
                    tef.set_tefovie(c.enable_fifo_overflow_interrupt);
                    tef.set_teffie(c.enable_fifo_full_interrupt);
                    tef.set_tefhie(c.enable_fifo_half_full_interrupt);
                    tef.set_tefneie(c.enable_fifo_not_empty_interrupt);
                    tef.0
            };
            let r = self.chain_modify(
                SFRAddress::C1TEFCON,
                compute,
                Ghost(steps[1].1),
                Ghost(t0),
                Ghost(steps.take(1)),
                Ghost(r),
            );
            proof {
                assert(steps.take(1).push((SFRAddress::C1TEFCON, steps[1].1)) =~= steps.take(2));
                if r is Err {
                    lemma_chain_err_extend(suffix(self.trace@, t0), steps.take(2), steps.skip(2), r);
                    assert(steps.take(2) + steps.skip(2) =~= steps);
                }
                assert(steps.take(2) =~= steps);
            }
            r
            },
        }
    }

    /// Enables or disables the transmit queue (TXQEN), then, when enabled,
    /// sets its priority, retransmissions, depth, payload size and
    /// interrupts. A depth of 0 or above 32 gives 32.
    #[verifier::rlimit(60)]
    pub fn configure_tx_queue(&mut self, tx_queue_config: Option<TxQueueConfiguration>) -> (r: Result<(), ConfigError>)
        ensures
            appended(final(self).trace(), old(self).trace()),
            modify_chain(suffix(final(self).trace(), old(self).trace()), txq_steps(tx_queue_config), r),
    {
        let ghost t0 = self.trace@;
        let ghost steps = txq_steps(tx_queue_config);
        proof {
            assert(suffix(self.trace@, t0) =~= Seq::<BusOp>::empty());
            assert(self.trace@.subrange(0, t0.len() as int) =~= t0);
            assert(steps.take(0) =~= Seq::<(SFRAddress, spec_fn(u32) -> u32)>::empty());
        }
        match tx_queue_config {
            None => {
            let compute = |w: u32| -> (y: u32)
                ensures
                    y == with_flag(w, 20, false),
                {
                    crate::bits::put_flag(w, 20, false)
            };
            let r = self.chain_modify(
                SFRAddress::C1CON,
                compute,
                Ghost(steps[0].1),
                Ghost(t0),
                Ghost(steps.take(0)),
                Ghost(Ok::<(), ConfigError>(())),
            );
            proof {
                assert(steps.take(0).push((SFRAddress::C1CON, steps[0].1)) =~= steps.take(1));
                if r is Err {
                    lemma_chain_err_extend(suffix(self.trace@, t0), steps.take(1), steps.skip(1), r);
                    assert(steps.take(1) + steps.skip(1) =~= steps);
                }
                assert(steps.take(1) =~= steps);
            }
            r
            },
            Some(c) => {
            let compute = |w: u32| -> (y: u32)
                ensures
                    y == with_flag(w, 20, true),
                {
                    crate::bits::put_flag(w, 20, true)
            };
            let r = self.chain_modify(
                SFRAddress::C1CON,
                compute,
                Ghost(steps[0].1),
                Ghost(t0),
                Ghost(steps.take(0)),
                Ghost(Ok::<(), ConfigError>(())),
            );
            proof {
                assert(steps.take(0).push((SFRAddress::C1CON, steps[0].1)) =~= steps.take(1));
                if r is Err {
                    lemma_chain_err_extend(suffix(self.trace@, t0), steps.take(1), steps.skip(1), r);
                    assert(steps.take(1) + steps.skip(1) =~= steps);
                }
            }
            if r.is_err() {
                return r;
            }
            let compute = |w: u32| -> (y: u32)
                ensures
                    y == txq_word(w, c),
                {
                    let mut q = TxQueueControlRegister(w);
                    q.set_retransmission_attempts(c.retransmission_attempts);
                    q.set_txpri(c.message_priority);
                    q.set_fifo_size(c.fifo_size);
                    q.set_payload_size(c.payload_size);
                    q.set_txatie(c.enable_transmit_attempts_exhausted_interrupt);
                    q.set_txqeie(c.enable_queue_empty_interrupt);
                    q.set_txqnie(c.enable_queue_not_full_interrupt);
                    q.0
            };
            let r = self.chain_modify(
                SFRAddress::C1TXQCON,
                compute,
                Ghost(steps[1].1),
                Ghost(t0),
                Ghost(steps.take(1)),
                Ghost(r),
            );
            proof {
                assert(steps.take(1).push((SFRAddress::C1TXQCON, steps[1].1)) =~= steps.take(2));
                if r is Err {
                    lemma_chain_err_extend(suffix(self.trace@, t0), steps.take(2), steps.skip(2), r);
                    assert(steps.take(2) + steps.skip(2) =~= steps);
                }
                assert(steps.take(2) =~= steps);
            }
            r
            },
        }
    }

    /// Reads register `a`, computes the new word with `compute` and writes it
    /// back.
    fn modify_with<F: Fn(u32) -> u32>(&mut self, a: SFRAddress, compute: F, f: Ghost<spec_fn(u32) -> u32>) -> (r: Result<
        (),
        Error,
    >)
        requires
            forall|w: u32| compute.requires((w,)),
            forall|w: u32, y: u32| compute.ensures((w,), y) ==> y == f@(w),
        ensures
            appended(final(self).trace(), old(self).trace()),
            modify_spec(suffix(final(self).trace(), old(self).trace()), a, f@, r),
    {
        let ghost t0 = self.trace@;
        let w = match self.read_sfr(a) {
            Ok(w) => w,
            Err(e) => {
                assert(suffix(self.trace@, t0) =~= seq![self.trace@[t0.len() as int]]);
                assert(self.trace@.subrange(0, t0.len() as int) =~= t0);
                return Err(e);
            },
        };
        let nw = compute(w);
        let r = self.write_sfr(a, nw);
        assert(suffix(self.trace@, t0) =~= seq![self.trace@[t0.len() as int], self.trace@[t0.len() as int + 1]]);
        assert(self.trace@.subrange(0, t0.len() as int) =~= t0);
        r
    }

    /// Configures FIFO `fifo_number` for transmission or reception with one
    /// read-modify-write of its control register. A depth of 0 or above 32
    /// gives 32.
    pub fn configure_fifo(&mut self, fifo_number: FifoNumber, fifo_config: FifoConfiguration) -> (r: Result<(), Error>)
        ensures
            appended(final(self).trace(), old(self).trace()),
            modify_spec(
                suffix(final(self).trace(), old(self).trace()),
                FifoControlRegister::spec_address_for(fifo_number),
                |w: u32| fifo_word(w, fifo_config),
                r,
            ),
    {
        let compute = |w: u32| -> (y: u32)
            ensures
                y == fifo_word(w, fifo_config),
        {
            let mut c = FifoControlRegister(w);
            c.set_fifo_size(fifo_config.fifo_size);
            c.set_payload_size(fifo_config.payload_size);
            match fifo_config.mode {
                FifoMode::Transmit(tx) => {
                    c.set_txen(true);
                    c.set_txpri(tx.priority);
                    c.set_retransmission_attempts(tx.retransmission_attempts);
                    c.set_rtren(tx.enable_auto_rtr);
                    c.set_txatie(tx.enable_transmit_attempts_exhausted_interrupt);
                    c.set_tferffie(tx.enable_fifo_empty_interrupt);
                    c.set_tfhrfhie(tx.enable_fifo_half_empty_interrupt);
                    c.set_tfnrfnie(tx.enable_fifo_not_full_interrupt);
                },
                FifoMode::Receive(rx) => {
                    c.set_txen(false);
                    c.set_rxtsen(rx.enable_message_timestamps);
                    c.set_rxovie(rx.enable_fifo_overflow_interrupt);
                    c.set_tferffie(rx.enable_fifo_full_interrupt);
                    c.set_tfhrfhie(rx.enable_fifo_half_full_interrupt);
                    c.set_tfnrfnie(rx.enable_fifo_not_empty_interrupt);
                },
            }
            c.0
        };
        self.modify_with(
            FifoControlRegister::get_address_for(fifo_number),
            compute,
            Ghost(|w: u32| fifo_word(w, fifo_config)),
        )
    }

    /// Reads the interrupt code register (C1VEC).
    pub fn get_highest_interrupt_codes(&mut self) -> (r: Result<InterruptCodeRegister, Error>)
        ensures
            final(self).trace() == old(self).trace().push(sfr_read(SFRAddress::C1VEC, word_of(r))),
            r is Err ==> r == Err::<InterruptCodeRegister, Error>(Error::SPIRead),
    {
        self.read_register::<InterruptCodeRegister>()
    }

    /// Reads the interrupt flag and enable register (C1INT).
    pub fn get_top_level_interrupt_statuses(&mut self) -> (r: Result<InterruptRegister, Error>)
        ensures
            final(self).trace() == old(self).trace().push(sfr_read(SFRAddress::C1INT, word_of(r))),
            r is Err ==> r == Err::<InterruptRegister, Error>(Error::SPIRead),
    {
        self.read_register::<InterruptRegister>()
    }

    /// Reads the receive interrupt status register (C1RXIF).
    pub fn get_rx_interrupt_statuses(&mut self) -> (r: Result<RxInterruptStatusRegister, Error>)
        ensures
            final(self).trace() == old(self).trace().push(sfr_read(SFRAddress::C1RXIF, word_of(r))),
            r is Err ==> r == Err::<RxInterruptStatusRegister, Error>(Error::SPIRead),
    {
        self.read_register::<RxInterruptStatusRegister>()
    }

    /// Reads the receive overflow interrupt status register (C1RXOVIF).
    pub fn get_rx_overflow_interrupt_statuses(&mut self) -> (r: Result<RxOverflowInterruptStatusRegister, Error>)
        ensures
            final(self).trace() == old(self).trace().push(sfr_read(SFRAddress::C1RXOVIF, word_of(r))),
            r is Err ==> r == Err::<RxOverflowInterruptStatusRegister, Error>(Error::SPIRead),
    {
        self.read_register::<RxOverflowInterruptStatusRegister>()
    }

    /// Reads the transmit interrupt status register (C1TXIF).
    pub fn get_tx_interrupt_statuses(&mut self) -> (r: Result<TxInterruptStatusRegister, Error>)
        ensures
            final(self).trace() == old(self).trace().push(sfr_read(SFRAddress::C1TXIF, word_of(r))),
            r is Err ==> r == Err::<TxInterruptStatusRegister, Error>(Error::SPIRead),
    {
        self.read_register::<TxInterruptStatusRegister>()
    }

    /// Reads the transmit attempt interrupt status register (C1TXATIF).
    pub fn get_tx_attempt_interrupt_statuses(&mut self) -> (r: Result<TxAttemptInterruptStatusRegister, Error>)
        ensures
            final(self).trace() == old(self).trace().push(sfr_read(SFRAddress::C1TXATIF, word_of(r))),
            r is Err ==> r == Err::<TxAttemptInterruptStatusRegister, Error>(Error::SPIRead),
    {
        self.read_register::<TxAttemptInterruptStatusRegister>()
    }

    /// Configures acceptance filter `filter_number`. The filter is disabled
    /// first; with `None` it stays disabled. Otherwise its object and mask
    /// are written, then its FIFO is set and it is enabled again. An
    /// identifier given as standard leaves the extension bits zero.
    #[verifier::rlimit(60)]
    pub fn configure_filter(&mut self, filter_number: FilterNumber, filter_config: Option<FilterConfiguration>) -> (r:
        Result<(), Error>)
        requires
            filter_config matches Some(fc) ==> fc.filter_bits.wf() && fc.mask_bits.wf(),
        ensures
            appended(final(self).trace(), old(self).trace()),
            filter_spec(suffix(final(self).trace(), old(self).trace()), filter_number, filter_config, r),
    {
        let ghost t0 = self.trace@;
        let (control_number, filter_index) = filter_number.get_control_register();
        let c = FilterControlRegister::get_address_for(control_number);
        let bit: u32 = 8 * filter_index.value() as u32 + 7;
        let lo: u32 = 8 * filter_index.value() as u32;
        let ghost n = filter_number;
        let ghost cfg = filter_config;
        let ghost fbit = (8 * (n.spec_value() % 4) + 7) as u32;
        let ghost flo = (8 * (n.spec_value() % 4)) as u32;
        let ghost f1 = |w: u32| with_flag(w, fbit, false);
        let ghost r4s = |t4: Seq<BusOp>, r4: Result<(), Error>| t4.len() == 0 && r4 is Ok;
        let ghost f4 = |w: u32| with_flag(with_field(w, flo, 5, cfg->Some_0.buffer_pointer.spec_value() as u32), fbit, true);
        let ghost r3s = |t3: Seq<BusOp>, r3: Result<(), Error>| modify_then(t3, c, f4, r4s, r3);
        let ghost fm = |w: u32| mask_word(w, cfg->Some_0);
        let ghost r2s = |t2: Seq<BusOp>, r2: Result<(), Error>| modify_then(t2, MaskRegister::spec_address_for(n), fm, r3s, r2);
        let ghost fo = |w: u32| filter_object_word(w, cfg->Some_0);
        let ghost r1s = |t1: Seq<BusOp>, r1: Result<(), Error>|
            match cfg {
                None => t1.len() == 0 && r1 is Ok,
                Some(fc) => modify_then(t1, FilterObjectRegister::spec_address_for(n), fo, r2s, r1),
            };
        proof {
            assert(filter_spec(suffix(self.trace@, t0), n, cfg, Ok(())) == modify_then(suffix(self.trace@, t0), c, f1, r1s, Ok(())));
        }
        let compute = |w: u32| -> (y: u32)
            ensures
                y == with_flag(w, bit, false),
        {
            crate::bits::put_flag(w, bit, false)
        };
        let r1 = self.modify_with(c, compute, Ghost(f1));
        let ghost t1 = self.trace@;
        if r1.is_err() || filter_config.is_none() {
            proof {
                let t = suffix(self.trace@, t0);
                assert(t.subrange(0, t.len() as int) =~= t);
                assert(t.subrange(t.len() as int, t.len() as int) =~= Seq::<BusOp>::empty());
                lemma_modify_then_intro(t, t.len() as int, c, f1, r1s, r1, r1);
                assert(self.trace@.subrange(0, t0.len() as int) =~= t0);
            }
            return r1;
        }
        let fc = match filter_config {
            Some(fc) => fc,
            None => return r1,
        };
        proof {
            lemma_filter_id_fits(fc.filter_bits);
            lemma_filter_id_fits(fc.mask_bits);
        }
        let compute = |w: u32| -> (y: u32)
            ensures
                y == filter_object_word(w, fc),
        {
            let mut o = FilterObjectRegister(w);
            match fc.filter_bits {
                CanId::Standard(id) => {
                    o.set_sid(id);
                    o.set_eid(0);
                },
                CanId::Extended(id) => {
                    o.set_sid((id >> 18) as u16);
                    o.set_eid(id & 0x3FFFF);
                },
            }
            o.set_exide(
                match fc.mode {
                    FilterMatchMode::ExtendedOnly => true,
                    _ => false,
                },
            );
            o.0
        };
        let r2 = self.modify_with(FilterObjectRegister::get_address_for(filter_number), compute, Ghost(fo));
        let ghost t2 = self.trace@;
        if r2.is_err() {
            proof {
                let t = suffix(self.trace@, t0);
                let u = suffix(self.trace@, t1);
                let k = (t1.len() - t0.len()) as int;
                assert(t.subrange(0, k) =~= suffix(t1, t0));
                assert(t.subrange(k, t.len() as int) =~= u);
                assert(u.subrange(0, u.len() as int) =~= u);
                lemma_modify_then_intro(u, u.len() as int, FilterObjectRegister::spec_address_for(n), fo, r2s, r2, r2);
                lemma_modify_then_intro(t, k, c, f1, r1s, r1, r2);
                assert(self.trace@.subrange(0, t0.len() as int) =~= t0);
            }
            return r2;
        }
        let compute = |w: u32| -> (y: u32)
            ensures
                y == mask_word(w, fc),
        {
            let mut m = MaskRegister(w);
            match fc.mask_bits {
                CanId::Standard(id) => {
                    m.set_msid(id);
                    m.set_meid(0);
                },
                CanId::Extended(id) => {
                    m.set_msid((id >> 18) as u16);
                    m.set_meid(id & 0x3FFFF);
                },
            }
            m.set_mide(
                match fc.mode {
                    FilterMatchMode::Both => false,
                    _ => true,
                },
            );
            m.0
        };
        let r3 = self.modify_with(MaskRegister::get_address_for(filter_number), compute, Ghost(fm));
        let ghost t3 = self.trace@;
        if r3.is_err() {
            proof {
                let t = suffix(self.trace@, t0);
                let u = suffix(self.trace@, t1);
                let v = suffix(self.trace@, t2);
                let k = (t1.len() - t0.len()) as int;
                let j = (t2.len() - t1.len()) as int;
                assert(t.subrange(0, k) =~= suffix(t1, t0));
                assert(t.subrange(k, t.len() as int) =~= u);
                assert(u.subrange(0, j) =~= suffix(t2, t1));
                assert(u.subrange(j, u.len() as int) =~= v);
                assert(v.subrange(0, v.len() as int) =~= v);
                lemma_modify_then_intro(v, v.len() as int, MaskRegister::spec_address_for(n), fm, r3s, r3, r3);
                lemma_modify_then_intro(u, j, FilterObjectRegister::spec_address_for(n), fo, r2s, r2, r3);
                lemma_modify_then_intro(t, k, c, f1, r1s, r1, r3);
                assert(self.trace@.subrange(0, t0.len() as int) =~= t0);
            }
            return r3;
        }
        let compute = |w: u32| -> (y: u32)
            ensures
                y == with_flag(with_field(w, lo, 5, fc.buffer_pointer.spec_value() as u32), bit, true),
        {
            let mut cr = FilterControlRegister(w);
            cr.set_buffer_pointer(filter_index, fc.buffer_pointer);
            cr.set_enabled(filter_index, true);
            cr.0
        };
        let r4 = self.modify_with(c, compute, Ghost(f4));
        proof {
            let t = suffix(self.trace@, t0);
            let u = suffix(self.trace@, t1);
            let v = suffix(self.trace@, t2);
            let x = suffix(self.trace@, t3);
            let k = (t1.len() - t0.len()) as int;
            let j = (t2.len() - t1.len()) as int;
            let i = (t3.len() - t2.len()) as int;
            assert(t.subrange(0, k) =~= suffix(t1, t0));
            assert(t.subrange(k, t.len() as int) =~= u);
            assert(u.subrange(0, j) =~= suffix(t2, t1));
            assert(u.subrange(j, u.len() as int) =~= v);
            assert(v.subrange(0, i) =~= suffix(t3, t2));
            assert(v.subrange(i, v.len() as int) =~= x);
            assert(x.subrange(0, x.len() as int) =~= x);
            assert(x.subrange(x.len() as int, x.len() as int) =~= Seq::<BusOp>::empty());
            lemma_modify_then_intro(x, x.len() as int, c, f4, r4s, r4, r4);
            lemma_modify_then_intro(v, i, MaskRegister::spec_address_for(n), fm, r3s, r3, r4);
            lemma_modify_then_intro(u, j, FilterObjectRegister::spec_address_for(n), fo, r2s, r2, r4);
            lemma_modify_then_intro(t, k, c, f1, r1s, r1, r4);
            assert(self.trace@.subrange(0, t0.len() as int) =~= t0);
        }
        r4
    }

    /// Sets the oscillator: PLL, clock divider, oscillator enabled. With the
    /// PLL on, then polls up to three times, 500 µs apart, for PLL ready.
    #[verifier::rlimit(60)]
    pub fn configure_osc<D: DelayUs>(&mut self, oscillator_settings: OscillatorConfiguration, delay: &mut D) -> (r:
        Result<(), ConfigError>)
        ensures
            appended(final(self).trace(), old(self).trace()),
            osc_spec(suffix(final(self).trace(), old(self).trace()), oscillator_settings, r),
    {
        let ghost t0 = self.trace@;
        let ghost steps = osc_steps(oscillator_settings);
        proof {
            assert(suffix(self.trace@, t0) =~= Seq::<BusOp>::empty());
            assert(self.trace@.subrange(0, t0.len() as int) =~= t0);
            assert(steps.take(0) =~= Seq::<(SFRAddress, spec_fn(u32) -> u32)>::empty());
        }
        let pll_on = match oscillator_settings.pll {
            Pll::On => true,
            Pll::Off => false,
        };
        let div_two = match oscillator_settings.divider {
            SysClkDivider::DivByOne => false,
            SysClkDivider::DivByTwo => true,
        };
        let compute = |w: u32| -> (y: u32)
            ensures
                y == osc_word(w, oscillator_settings),
        {
            let mut osc = OscillatorControlRegister(w);
            osc.set_pllen(pll_on);
            osc.set_slckdiv(div_two);
            osc.set_oscdis(false);
            osc.0
        };
        let written = self.chain_modify(
            SFRAddress::OSC,
            compute,
            Ghost(steps[0].1),
            Ghost(t0),
            Ghost(steps.take(0)),
            Ghost(Ok::<(), ConfigError>(())),
        );
        proof {
            assert(steps.take(0).push((SFRAddress::OSC, steps[0].1)) =~= steps);
        }
        if written.is_err() || !pll_on {
            proof {
                if pll_on {
                    let t = suffix(self.trace@, t0);
                    assert(t.subrange(0, t.len() as int) =~= t);
                    lemma_then_intro(
                        t,
                        |u: Seq<BusOp>, q: Result<(), ConfigError>| modify_chain(u, osc_steps(oscillator_settings), q),
                        |u: Seq<BusOp>, q: Result<(), ConfigError>|
                            poll_spec(u, SFRAddress::OSC, |w: u32| flag(w, 8), 3, ConfigError::PLLNotReady, q),
                        t.len() as int,
                        written,
                        written,
                    );
                }
            }
            return written;
        }
        let ghost t1 = self.trace@;
        let r = self.poll_pll_ready(delay, 3);
        proof {
            let t = suffix(self.trace@, t0);
            let k = (t1.len() - t0.len()) as int;
            assert(t.subrange(0, k) =~= suffix(t1, t0));
            assert(t.subrange(k, t.len() as int) =~= suffix(self.trace@, t1));
            lemma_then_intro(
                t,
                |u: Seq<BusOp>, q: Result<(), ConfigError>| modify_chain(u, osc_steps(oscillator_settings), q),
                |u: Seq<BusOp>, q: Result<(), ConfigError>|
                    poll_spec(u, SFRAddress::OSC, |w: u32| flag(w, 8), 3, ConfigError::PLLNotReady, q),
                k,
                written,
                r,
            );
            assert(self.trace@.subrange(0, t0.len() as int) =~= t0);
        }
        r
    }

    fn echo_from(&mut self, i: u32) -> (r: Result<(), ConfigError>)
        requires
            i <= 32,
        ensures
            appended(final(self).trace(), old(self).trace()),
            echo_spec(suffix(final(self).trace(), old(self).trace()), i, r),
        decreases 32 - i,
    {
        let ghost t0 = self.trace@;
        if i >= 32 {
            assert(suffix(self.trace@, t0) =~= Seq::<BusOp>::empty());
            assert(self.trace@.subrange(0, t0.len() as int) =~= t0);
            return Ok(());
        }
        let data: u32 = 1u32 << i;
        let mut bytes: Vec<u8> = Vec::new();
        crate::message::push_le_bytes(&mut bytes, data);
        assert(bytes@ =~= le_bytes(data));
        let address: u16 = RAM_BASE_ADDRESS as u16;
        match self.write_ram(address, bytes.as_slice()) {
            Ok(()) => {},
            Err(_) => {
                assert(suffix(self.trace@, t0) =~= seq![self.trace@[t0.len() as int]]);
                assert(self.trace@.subrange(0, t0.len() as int) =~= t0);
                return Err(ConfigError::ConfigurationModeTimeout);
            },
        }
        let back = match self.read_ram(address, 4) {
            Ok(b) => b,
            Err(_) => {
                assert(suffix(self.trace@, t0) =~= seq![self.trace@[t0.len() as int], self.trace@[t0.len() as int + 1]]);
                assert(self.trace@.subrange(0, t0.len() as int) =~= t0);
                return Err(ConfigError::ConfigurationModeTimeout);
            },
        };
        if read_le_word(back.as_slice(), 0) != data {
            assert(suffix(self.trace@, t0) =~= seq![self.trace@[t0.len() as int], self.trace@[t0.len() as int + 1]]);
            assert(self.trace@.subrange(0, t0.len() as int) =~= t0);
            return Err(ConfigError::SPIFailedRAMEcho);
        }
        let ghost t2 = self.trace@;
        let r = self.echo_from(i + 1);
        proof {
            let t = suffix(self.trace@, t0);
            assert(t.subrange(2, t.len() as int) =~= suffix(self.trace@, t2));
            assert(t[0] == t2[t0.len() as int]);
            assert(t[1] == t2[t0.len() as int + 1]);
            assert(self.trace@.subrange(0, t0.len() as int) =~= t0);
        }
        r
    }

    /// Checks the transport: for each bit position, writes the word with
    /// that bit set to the first RAM word and reads it back. A mismatch gives
    /// `SPIFailedRAMEcho`; a failed transfer `ConfigurationModeTimeout`.
    pub fn verify_spi_communications(&mut self) -> (r: Result<(), ConfigError>)
        ensures
            appended(final(self).trace(), old(self).trace()),
            echo_spec(suffix(final(self).trace(), old(self).trace()), 0, r),
    {
        self.echo_from(0)
    }

    /// Checks the transport with one 128-byte write of the 32 single-bit
    /// words and one read back.
    pub fn verify_spi_communications_long(&mut self) -> (r: Result<(), ConfigError>)
        ensures
            appended(final(self).trace(), old(self).trace()),
            long_echo_spec(suffix(final(self).trace(), old(self).trace()), r),
    {
        let ghost t0 = self.trace@;
        let mut data: Vec<u8> = Vec::new();
        let mut i: u32 = 0;
        while i < 32
            invariant
                i <= 32,
                data@ == echo_pattern().subrange(0, 4 * i as int),
            decreases 32 - i,
        {
            let ghost before = data@;
            crate::message::push_le_bytes(&mut data, 1u32 << i);
            proof {
                assert forall|j: int| 4 * i <= j < 4 * i + 4 implies #[trigger] echo_pattern()[j] == le_bytes(1u32 << i)[j - 4 * i] by {
                    assert(j / 4 == i as int);
                }
                assert(data@ =~= echo_pattern().subrange(0, 4 * (i + 1) as int));
            }
            i = i + 1;
        }
        assert(data@ =~= echo_pattern());
        let address: u16 = RAM_BASE_ADDRESS as u16;
        match self.write_ram(address, data.as_slice()) {
            Ok(()) => {},
            Err(_) => {
                assert(suffix(self.trace@, t0) =~= seq![self.trace@[t0.len() as int]]);
                assert(self.trace@.subrange(0, t0.len() as int) =~= t0);
                return Err(ConfigError::ConfigurationModeTimeout);
            },
        }
        let back = match self.read_ram(address, 128) {
            Ok(b) => b,
            Err(_) => {
                assert(suffix(self.trace@, t0) =~= seq![self.trace@[t0.len() as int], self.trace@[t0.len() as int + 1]]);
                assert(self.trace@.subrange(0, t0.len() as int) =~= t0);
                return Err(ConfigError::ConfigurationModeTimeout);
            },
        };
        assert(suffix(self.trace@, t0) =~= seq![self.trace@[t0.len() as int], self.trace@[t0.len() as int + 1]]);
        assert(self.trace@.subrange(0, t0.len() as int) =~= t0);
        if bytes_equal(back.as_slice(), data.as_slice()) {
            Ok(())
        } else {
            Err(ConfigError::SPIFailedRAMEcho)
        }
    }

    /// The read-modify-writes of the configuration sequence after the
    /// oscillator, in order; the first failure ends them.
    #[verifier::rlimit(60)]
    fn configure_registers(&mut self, settings: Settings) -> (r: Result<(), ConfigError>)
        ensures
            appended(final(self).trace(), old(self).trace()),
            modify_chain(suffix(final(self).trace(), old(self).trace()), config_steps(settings), r),
    {
        let ghost t0 = self.trace@;
        let ghost steps = config_steps(settings);
        let ghost s1 = io_steps(settings.io_configuration);
        let ghost s2 = bit_timing_steps(settings.bit_time_configuration);
        let ghost s3 = tef_steps(settings.tx_event_fifo);
        let ghost s4 = txq_steps(settings.tx_queue);
        let ghost s5 = tail_steps(settings);
        let r = self.configure_io(settings.io_configuration);
        let ghost t1 = self.trace@;
        if r.is_err() {
            proof {
                lemma_chain_err_extend(suffix(self.trace@, t0), s1, s2 + s3 + s4 + s5, r);
                assert(s1 + (s2 + s3 + s4 + s5) =~= steps);
            }
            return r;
        }
        let ghost r1 = r;
        let r = self.configure_bit_timing(settings.bit_time_configuration);
        let ghost t2 = self.trace@;
        proof {
            lemma_chain_concat(suffix(t1, t0), s1, r1, suffix(t2, t1), s2, r);
            assert(suffix(t1, t0) + suffix(t2, t1) =~= suffix(t2, t0));
            assert(t2.subrange(0, t0.len() as int) =~= t0);
        }
        if r.is_err() {
            proof {
                lemma_chain_err_extend(suffix(self.trace@, t0), s1 + s2, s3 + s4 + s5, r);
                assert(s1 + s2 + (s3 + s4 + s5) =~= steps);
            }
            return r;
        }
        let ghost r2 = r;
        let r = self.configure_tx_event_fifo(settings.tx_event_fifo);
        let ghost t3 = self.trace@;
        proof {
            lemma_chain_concat(suffix(t2, t0), s1 + s2, r2, suffix(t3, t2), s3, r);
            assert(suffix(t2, t0) + suffix(t3, t2) =~= suffix(t3, t0));
            assert(t3.subrange(0, t0.len() as int) =~= t0);
        }
        if r.is_err() {
            proof {
                lemma_chain_err_extend(suffix(self.trace@, t0), s1 + s2 + s3, s4 + s5, r);
                assert(s1 + s2 + s3 + (s4 + s5) =~= steps);
            }
            return r;
        }
        let ghost r3 = r;
        let r = self.configure_tx_queue(settings.tx_queue);
        let ghost t4 = self.trace@;
        proof {
            lemma_chain_concat(suffix(t3, t0), s1 + s2 + s3, r3, suffix(t4, t3), s4, r);
            assert(suffix(t3, t0) + suffix(t4, t3) =~= suffix(t4, t0));
            assert(t4.subrange(0, t0.len() as int) =~= t0);
        }
        if r.is_err() {
            proof {
                lemma_chain_err_extend(suffix(self.trace@, t0), s1 + s2 + s3 + s4, s5, r);
            }
            return r;
        }
        let ghost mut done = s1 + s2 + s3 + s4;
        let ghost mut prev = r;
        proof {
            assert(steps =~= done + s5);
        }
        if settings.enable_time_based_counter {
            proof {
                assert(steps.skip(done.len() as int)[0] == (SFRAddress::C1TSCON, |w: u32| with_flag(w, 16, true)));
            }
        let compute = |w: u32| -> (y: u32)
                ensures
                    y == with_flag(w, 16, true),
            {
                let mut ts = TimeStampControlRegister(w);
                ts.set_tbcen(true);
                ts.0
            };
            let r = self.chain_modify(SFRAddress::C1TSCON, compute, Ghost(|w: u32| with_flag(w, 16, true)), Ghost(t0), Ghost(done), Ghost(prev));
            proof {
                done = done.push((SFRAddress::C1TSCON, |w: u32| with_flag(w, 16, true)));
                if r is Err {
                    lemma_chain_err_extend(suffix(self.trace@, t0), done, steps.skip(done.len() as int), r);
                    assert(done + steps.skip(done.len() as int) =~= steps);
                }
                prev = r;
            }
            if r.is_err() {
                return r;
            }
        }
        if let Some(dncnt) = settings.data_bits_to_match {
        let compute = |w: u32| -> (y: u32)
                ensures
                    y == with_field(w, 0, 5, dncnt.spec_value() as u32),
            {
                let mut con = CanControlRegister(w);
                con.set_dncnt(dncnt);
                con.0
            };
            let r = self.chain_modify(SFRAddress::C1CON, compute, Ghost(|w: u32| with_field(w, 0, 5, dncnt.spec_value() as u32)), Ghost(t0), Ghost(done), Ghost(prev));
            proof {
                done = done.push((SFRAddress::C1CON, |w: u32| with_field(w, 0, 5, dncnt.spec_value() as u32)));
                if r is Err {
                    lemma_chain_err_extend(suffix(self.trace@, t0), done, steps.skip(done.len() as int), r);
                    assert(done + steps.skip(done.len() as int) =~= steps);
                }
                prev = r;
            }
            if r.is_err() {
                return r;
            }
        }
        let compute = |w: u32| -> (y: u32)
            ensures
                y == with_flag(w, 16, true),
        {
            let mut con = CanControlRegister(w);
            con.set_rtxat(true);
            con.0
        };
        let r = self.chain_modify(SFRAddress::C1CON, compute, Ghost(|w: u32| with_flag(w, 16, true)), Ghost(t0), Ghost(done), Ghost(prev));
        proof {
            done = done.push((SFRAddress::C1CON, |w: u32| with_flag(w, 16, true)));
            if r is Err {
                lemma_chain_err_extend(suffix(self.trace@, t0), done, steps.skip(done.len() as int), r);
                assert(done + steps.skip(done.len() as int) =~= steps);
            }
            prev = r;
        }
        if r.is_err() {
            return r;
        }
        let compute = |w: u32| -> (y: u32)
            ensures
                y == int_word(w, settings),
        {
            let mut ints = InterruptRegister(w);
            ints.set_rxie(true);
            ints.set_txie(true);
            if settings.enable_can_error_interrupts {
                ints.set_ivmie(true);
                ints.set_cerrie(true);
                ints.set_serrie(true);
            }
            if settings.enable_spi_error_interrupt {
                ints.set_spicrcie(true);
            }
            if settings.enable_ecc_error_interrupt {
                ints.set_eccie(true);
            }
            if settings.enable_time_based_counter {
                ints.set_tbcie(true);
            }
            ints.0
        };
        let r = self.chain_modify(
            SFRAddress::C1INT,
            compute,
            Ghost(|w: u32| int_word(w, settings)),
            Ghost(t0),
            Ghost(done),
            Ghost(prev),
        );
        proof {
            assert(done.push((SFRAddress::C1INT, |w: u32| int_word(w, settings))) =~= steps);
        }
        r
    }

    /// The full configuration sequence: forces configuration mode, checks the
    /// transport with the RAM echo test, then sets the oscillator, pins, bit
    /// timing, transmit event FIFO, transmit queue, time base counter, filter
    /// data bit count, retransmission attempts and interrupts. Stops at the
    /// first failure without undoing earlier steps.
    #[verifier::rlimit(60)]
    pub fn configure<D: DelayUs>(&mut self, settings: Settings, delay: &mut D) -> (r: Result<(), ConfigError>)
        ensures
            appended(final(self).trace(), old(self).trace()),
            configure_spec(suffix(final(self).trace(), old(self).trace()), settings, r),
    {
        let ghost t0 = self.trace@;
        let mode = self.set_op_mode(OperationMode::Configuration, delay);
        let ghost t1 = self.trace@;
        let m1 = match mode {
            Ok(()) => Ok(()),
            Err(_) => Err(ConfigError::ConfigurationModeTimeout),
        };
        proof {
            let t = suffix(self.trace@, t0);
            assert(t.subrange(0, t.len() as int) =~= t);
            assert(set_op_mode_spec(t.subrange(0, t.len() as int), OperationMode::Configuration, mode));
            assert(mode_phase(t.subrange(0, t.len() as int), m1));
            assert(self.trace@.subrange(0, t0.len() as int) =~= t0);
        }
        if m1.is_err() {
            proof {
                let t = suffix(self.trace@, t0);
                let n = t.len() as int;
                lemma_configure_compose(t, settings, n, m1, n, m1, n, m1, m1);
            }
            return m1;
        }
        let m2 = self.verify_spi_communications();
        let ghost t2 = self.trace@;
        proof {
            assert(self.trace@.subrange(0, t0.len() as int) =~= t0);
            let t = suffix(self.trace@, t0);
            let k1 = (t1.len() - t0.len()) as int;
            assert(t.subrange(0, k1) =~= suffix(t1, t0));
            assert(t.subrange(k1, t.len() as int) =~= suffix(t2, t1));
        }
        if m2.is_err() {
            proof {
                let t = suffix(self.trace@, t0);
                let n = t.len() as int;
                let k1 = (t1.len() - t0.len()) as int;
                lemma_configure_compose(t, settings, k1, m1, n, m2, n, m2, m2);
            }
            return m2;
        }
        let m3 = self.configure_osc(settings.oscillator, delay);
        let ghost t3 = self.trace@;
        proof {
            assert(self.trace@.subrange(0, t0.len() as int) =~= t0);
            let t = suffix(self.trace@, t0);
            let k1 = (t1.len() - t0.len()) as int;
            let k2 = (t2.len() - t0.len()) as int;
            assert(t.subrange(0, k1) =~= suffix(t1, t0));
            assert(t.subrange(k1, k2) =~= suffix(t2, t1));
            assert(t.subrange(k2, t.len() as int) =~= suffix(t3, t2));
        }
        if m3.is_err() {
            proof {
                let t = suffix(self.trace@, t0);
                let n = t.len() as int;
                let k1 = (t1.len() - t0.len()) as int;
                let k2 = (t2.len() - t0.len()) as int;
                lemma_configure_compose(t, settings, k1, m1, k2, m2, n, m3, m3);
            }
            return m3;
        }
        let r = self.configure_registers(settings);
        proof {
            assert(self.trace@.subrange(0, t0.len() as int) =~= t0);
            let t = suffix(self.trace@, t0);
            let k1 = (t1.len() - t0.len()) as int;
            let k2 = (t2.len() - t0.len()) as int;
            let k3 = (t3.len() - t0.len()) as int;
            assert(t.subrange(0, k1) =~= suffix(t1, t0));
            assert(t.subrange(k1, k2) =~= suffix(t2, t1));
            assert(t.subrange(k2, k3) =~= suffix(t3, t2));
            assert(t.subrange(k3, t.len() as int) =~= suffix(self.trace@, t3));
            lemma_configure_compose(t, settings, k1, m1, k2, m2, k3, m3, r);
        }
        r
    }
}

} // verus!
