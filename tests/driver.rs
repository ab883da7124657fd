use std::collections::HashMap;

use mcp2518fd::memory::controller::configuration::OperationMode;
use mcp2518fd::memory::controller::fifo::{FifoNumber, PayloadSize};
use mcp2518fd::memory::controller::filter::FilterNumber;
use mcp2518fd::message::rx::RxMessage;
use mcp2518fd::message::tx::{CanId, TxMessage};
use mcp2518fd::settings::{
    BitTimeConfiguration, DataBitTimeConfiguration, FifoConfiguration, FifoMode,
    FilterConfiguration, FilterMatchMode, IoConfiguration, NominalBitTimeConfiguration,
    OscillatorConfiguration, Pll, RxFifoConfiguration, Settings, SysClkDivider,
    TxFifoConfiguration, TxQueueConfiguration,
};
use mcp2518fd::spi::{DelayUs, SpiTransport};
use mcp2518fd::{ConfigError, Error, MCP2518FD};

const C1CON: u16 = 0x0;
const C1TXQCON: u16 = 0x50;
const C1TXQSTA: u16 = 0x54;
const C1TXQUA: u16 = 0x58;
const C1TEFCON: u16 = 0x40;
const C1TEFSTA: u16 = 0x44;
const C1TEFUA: u16 = 0x48;

fn fifocon(n: u16) -> u16 {
    0x5C + 12 * (n - 1)
}

fn fifosta(n: u16) -> u16 {
    fifocon(n) + 4
}

fn fifoua(n: u16) -> u16 {
    fifocon(n) + 8
}

#[derive(Debug, Clone, PartialEq)]
enum Op {
    Read(u16, usize),
    Write(u16, Vec<u8>),
}

/// A chip model: registers keep what is written to them, RAM is a byte
/// array, and every transaction is logged.
struct Mock {
    regs: HashMap<u16, u32>,
    ram: Vec<u8>,
    log: Vec<Op>,
    fail_reads: bool,
    fail_writes: bool,
    /// Registers whose reads ignore writes and always give this word.
    pinned: HashMap<u16, u32>,
    /// When set, RAM reads at the first word give this value.
    corrupt_echo: Option<u32>,
}

impl Mock {
    fn new() -> Mock {
        Mock {
            regs: HashMap::new(),
            ram: vec![0; 0x800],
            log: Vec::new(),
            fail_reads: false,
            fail_writes: false,
            pinned: HashMap::new(),
            corrupt_echo: None,
        }
    }

    fn reg(&self, address: u16) -> u32 {
        *self.regs.get(&address).unwrap_or(&0)
    }

    fn writes(&self) -> Vec<(u16, Vec<u8>)> {
        self.log
            .iter()
            .filter_map(|op| match op {
                Op::Write(a, d) => Some((*a, d.clone())),
                _ => None,
            })
            .collect()
    }
}

fn decode(instruction: [u8; 2]) -> (u8, u16) {
    (instruction[0] >> 4, (((instruction[0] & 0xF) as u16) << 8) | instruction[1] as u16)
}

impl SpiTransport for Mock {
    fn transfer_read(&mut self, instruction: [u8; 2], len: usize) -> Result<Vec<u8>, ()> {
        let (opcode, address) = decode(instruction);
        assert_eq!(opcode, 0b0011);
        self.log.push(Op::Read(address, len));
        if self.fail_reads {
            return Err(());
        }
        if (0x400..0xC00).contains(&address) {
            if address == 0x400 && len == 4 {
                if let Some(v) = self.corrupt_echo {
                    return Ok(v.to_le_bytes().to_vec());
                }
            }
            let start = (address - 0x400) as usize;
            Ok(self.ram[start..start + len].to_vec())
        } else {
            let word = match self.pinned.get(&address) {
                Some(w) => *w,
                None => self.reg(address),
            };
            Ok(word.to_le_bytes()[..len].to_vec())
        }
    }

    fn transfer_write(&mut self, instruction: [u8; 2], data: &[u8]) -> Result<(), ()> {
        let (opcode, address) = decode(instruction);
        self.log.push(Op::Write(address, data.to_vec()));
        if opcode == 0 {
            return Ok(());
        }
        assert_eq!(opcode, 0b0010);
        if self.fail_writes {
            return Err(());
        }
        if (0x400..0xC00).contains(&address) {
            let start = (address - 0x400) as usize;
            self.ram[start..start + data.len()].copy_from_slice(data);
        } else {
            let word = u32::from_le_bytes([data[0], data[1], data[2], data[3]]);
            self.regs.insert(address, word);
        }
        Ok(())
    }
}

struct CountingDelay {
    calls: Vec<u32>,
}

impl DelayUs for CountingDelay {
    fn delay_us(&mut self, us: u32) {
        self.calls.push(us);
    }
}

/// Transmit queue enabled, 8 objects of 32 bytes, not full, user address 0x10.
fn mock_with_tx_queue() -> Mock {
    let mut mock = Mock::new();
    mock.regs.insert(C1CON, 1 << 20);
    mock.regs.insert(C1TXQCON, (7 << 24) | (5 << 29));
    mock.regs.insert(C1TXQSTA, 1);
    mock.regs.insert(C1TXQUA, 0x10);
    mock
}

#[test]
fn push_writes_header_and_padded_payload_then_increments() {
    let mut driver = MCP2518FD::new(mock_with_tx_queue());
    let msg = TxMessage::new_2_0(CanId::Standard(0x123), &[1, 2, 3, 4, 5]).unwrap();
    assert_eq!(msg.header().dlc(), 5);
    assert_eq!(driver.tx_queue_push_message(&msg), Ok(()));
    let mock = driver.free();
    let writes = mock.writes();
    assert_eq!(writes.len(), 2);
    assert_eq!(writes[0].0, 0x410);
    assert_eq!(writes[0].1.len(), 16);
    assert_eq!(&writes[0].1[..8], &[0x23, 0x01, 0, 0, 5, 0, 0, 0]);
    assert_eq!(&writes[0].1[8..], &[1, 2, 3, 4, 5, 0, 0, 0]);
    assert_eq!(writes[1].0, C1TXQCON);
    let control = u32::from_le_bytes([writes[1].1[0], writes[1].1[1], writes[1].1[2], writes[1].1[3]]);
    assert_eq!(control, (7 << 24) | (5 << 29) | (1 << 8));
    assert_eq!(
        mock.log[..4],
        [Op::Read(C1CON, 4), Op::Read(C1TXQCON, 4), Op::Read(C1TXQSTA, 4), Op::Read(C1TXQUA, 4)]
    );
}

#[test]
fn push_of_a_payload_above_the_payload_size_writes_nothing() {
    let mut mock = mock_with_tx_queue();
    mock.regs.insert(C1TXQCON, 0);
    let mut driver = MCP2518FD::new(mock);
    let msg = TxMessage::new_fd(CanId::Standard(1), &[0u8; 12]).unwrap();
    assert_eq!(driver.tx_queue_push_message(&msg), Err(Error::FifoTooSmall));
    assert!(driver.free().writes().is_empty());
}

#[test]
fn push_into_a_full_queue_writes_nothing() {
    let mut mock = mock_with_tx_queue();
    mock.regs.insert(C1TXQSTA, 0);
    let mut driver = MCP2518FD::new(mock);
    let msg = TxMessage::new_2_0(CanId::Standard(1), &[1]).unwrap();
    assert_eq!(driver.tx_queue_push_message(&msg), Err(Error::FifoFull));
    assert!(driver.free().writes().is_empty());
}

#[test]
fn push_into_a_disabled_queue_is_refused() {
    let mut mock = mock_with_tx_queue();
    mock.regs.insert(C1CON, 0);
    let mut driver = MCP2518FD::new(mock);
    let msg = TxMessage::new_2_0(CanId::Standard(1), &[1]).unwrap();
    assert_eq!(driver.tx_queue_push_message(&msg), Err(Error::TxQueueDisabled));
    let mock = driver.free();
    assert!(mock.writes().is_empty());
    assert_eq!(mock.log.len(), 1);
}

#[test]
fn push_with_a_failing_transport_reports_a_read_error() {
    let mut mock = mock_with_tx_queue();
    mock.fail_reads = true;
    let mut driver = MCP2518FD::new(mock);
    let msg = TxMessage::new_2_0(CanId::Standard(1), &[1]).unwrap();
    assert_eq!(driver.tx_queue_push_message(&msg), Err(Error::SPIRead));
}

#[test]
fn push_of_an_empty_and_a_full_fd_payload_keeps_word_alignment() {
    let mut driver = MCP2518FD::new(mock_with_tx_queue());
    let empty = TxMessage::new_2_0(CanId::Standard(1), &[]).unwrap();
    assert_eq!(driver.tx_queue_push_message(&empty), Ok(()));
    let mock = driver.free();
    assert_eq!(mock.writes()[0].1.len(), 8);

    let mut mock = mock_with_tx_queue();
    mock.regs.insert(C1TXQCON, (7 << 24) | (7 << 29));
    let mut driver = MCP2518FD::new(mock);
    let full = TxMessage::new_fd(CanId::Standard(1), &[7u8; 64]).unwrap();
    assert_eq!(driver.tx_queue_push_message(&full), Ok(()));
    assert_eq!(driver.free().writes()[0].1.len(), 72);
}

#[test]
fn transmit_sets_the_request_bit_after_the_push() {
    let mut driver = MCP2518FD::new(mock_with_tx_queue());
    let msg = TxMessage::new_2_0(CanId::Standard(1), &[1, 2]).unwrap();
    assert_eq!(driver.tx_queue_transmit_message(&msg), Ok(()));
    let mock = driver.free();
    assert_eq!(mock.reg(C1TXQCON) & (1 << 9), 1 << 9);
    assert_eq!(mock.writes().len(), 3);
}

#[test]
fn tx_fifo_push_checks_the_direction() {
    let mut mock = Mock::new();
    mock.regs.insert(fifocon(2), 0);
    let mut driver = MCP2518FD::new(mock);
    let msg = TxMessage::new_2_0(CanId::Standard(1), &[1]).unwrap();
    assert_eq!(driver.tx_fifo_push_message(FifoNumber::Fifo2, &msg), Err(Error::FifoNotTx));

    let mut mock = Mock::new();
    mock.regs.insert(fifocon(2), 1 << 7);
    mock.regs.insert(fifosta(2), 1);
    mock.regs.insert(fifoua(2), 0x20);
    let mut driver = MCP2518FD::new(mock);
    assert_eq!(driver.tx_fifo_transmit_message(FifoNumber::Fifo2, &msg), Ok(()));
    let mock = driver.free();
    assert_eq!(mock.writes()[0].0, 0x420);
    assert_eq!(mock.reg(fifocon(2)), (1 << 7) | (1 << 8) | (1 << 9));
}

/// Receive FIFO 1 holding one classic frame of 5 bytes at user address 0x40,
/// with timestamps when `timestamps` is set.
fn mock_with_rx_frame(timestamps: bool) -> Mock {
    let mut mock = Mock::new();
    mock.regs.insert(fifocon(1), if timestamps { 1 << 5 } else { 0 });
    mock.regs.insert(fifosta(1), 1);
    mock.regs.insert(fifoua(1), 0x40);
    let header0: u32 = 0x321;
    let header1: u32 = 5 | (2 << 11);
    let base = 0x40usize;
    mock.ram[base..base + 4].copy_from_slice(&header0.to_le_bytes());
    mock.ram[base + 4..base + 8].copy_from_slice(&header1.to_le_bytes());
    let mut at = base + 8;
    if timestamps {
        mock.ram[at..at + 4].copy_from_slice(&0xDEAD_BEEFu32.to_le_bytes());
        at += 4;
    }
    mock.ram[at..at + 5].copy_from_slice(&[10, 20, 30, 40, 50]);
    mock
}

fn check_frame(msg: &RxMessage, timestamp: Option<u32>) {
    assert_eq!(msg.header().sid(), 0x321);
    assert_eq!(msg.header().dlc(), 5);
    assert_eq!(msg.header().filter_hit(), FilterNumber::Filter2);
    assert_eq!(msg.data(), &[10, 20, 30, 40, 50][..]);
    assert_eq!(msg.timestamp(), timestamp);
    assert!(!msg.is_fd());
}

#[test]
fn peeking_twice_gives_the_same_frame_and_writes_nothing() {
    let mut driver = MCP2518FD::new(mock_with_rx_frame(false));
    let first = driver.rx_fifo_peek_next(FifoNumber::Fifo1).unwrap().unwrap();
    let second = driver.rx_fifo_peek_next(FifoNumber::Fifo1).unwrap().unwrap();
    check_frame(&first, None);
    assert_eq!(first, second);
    assert!(driver.free().writes().is_empty());
}

#[test]
fn peek_reads_the_timestamp_and_the_payload_after_it() {
    let mut driver = MCP2518FD::new(mock_with_rx_frame(true));
    let msg = driver.rx_fifo_peek_next(FifoNumber::Fifo1).unwrap().unwrap();
    check_frame(&msg, Some(0xDEAD_BEEF));
    let mock = driver.free();
    assert!(mock.log.contains(&Op::Read(0x448, 4)));
    assert!(mock.log.contains(&Op::Read(0x44C, 8)));
}

#[test]
fn pop_writes_the_increment_bit_once_after_the_read() {
    let mut driver = MCP2518FD::new(mock_with_rx_frame(false));
    let msg = driver.rx_fifo_get_next(FifoNumber::Fifo1).unwrap().unwrap();
    check_frame(&msg, None);
    let mock = driver.free();
    let writes = mock.writes();
    assert_eq!(writes.len(), 1);
    assert_eq!(writes[0].0, fifocon(1));
    assert_eq!(writes[0].1, (1u32 << 8).to_le_bytes().to_vec());
    assert_eq!(mock.log.last(), Some(&Op::Write(fifocon(1), (1u32 << 8).to_le_bytes().to_vec())));
}

#[test]
fn pop_of_an_empty_fifo_gives_none_and_writes_nothing() {
    let mut mock = mock_with_rx_frame(false);
    mock.regs.insert(fifosta(1), 0);
    let mut driver = MCP2518FD::new(mock);
    assert!(driver.rx_fifo_get_next(FifoNumber::Fifo1).unwrap().is_none());
    assert!(driver.free().writes().is_empty());
}

#[test]
fn receive_from_a_transmit_fifo_is_refused() {
    let mut mock = mock_with_rx_frame(false);
    mock.regs.insert(fifocon(1), 1 << 7);
    let mut driver = MCP2518FD::new(mock);
    assert_eq!(driver.rx_fifo_has_next(FifoNumber::Fifo1), Err(Error::FifoNotRx));
    assert!(driver.rx_fifo_peek_next(FifoNumber::Fifo1).is_err());
}

#[test]
fn transmit_event_objects_are_read_and_popped() {
    let mut mock = Mock::new();
    mock.regs.insert(C1TEFSTA, 1);
    mock.regs.insert(C1TEFUA, 0x80);
    mock.regs.insert(C1TEFCON, 1 << 5);
    mock.ram[0x80..0x84].copy_from_slice(&0x7FFu32.to_le_bytes());
    mock.ram[0x84..0x88].copy_from_slice(&(3u32 | (9 << 9)).to_le_bytes());
    mock.ram[0x88..0x8C].copy_from_slice(&1234u32.to_le_bytes());
    let mut driver = MCP2518FD::new(mock);
    assert_eq!(driver.tx_event_fifo_has_next(), Ok(true));
    let obj = driver.tx_event_fifo_get_next().unwrap().unwrap();
    assert_eq!(obj.header.sid(), 0x7FF);
    assert_eq!(obj.header.seq(), 9);
    assert_eq!(obj.timestamp, Some(1234));
    let mock = driver.free();
    assert_eq!(mock.reg(C1TEFCON), (1 << 5) | (1 << 8));
}

#[test]
fn ram_access_checks_range_and_alignment_before_sending() {
    let mut driver = MCP2518FD::new(Mock::new());
    assert_eq!(driver.read_ram(0x400, 3), Err(Error::InvalidReadLength(3)));
    assert_eq!(driver.write_ram(0x400, &[1, 2, 3]), Err(Error::InvalidWriteLength(3)));
    assert_eq!(driver.read_ram(0xBFD, 4), Err(Error::InvalidRamAddress(0xBFD)));
    assert_eq!(driver.write_ram(0x3FC, &[0; 4]), Err(Error::InvalidRamAddress(0x3FC)));
    assert!(driver.free().log.is_empty());
    let mut driver = MCP2518FD::new(Mock::new());
    assert_eq!(driver.write_ram(0xBFC, &[1, 2, 3, 4]), Ok(()));
    assert_eq!(driver.read_ram(0xBFC, 4), Ok(vec![1, 2, 3, 4]));
}

#[test]
fn reset_sends_the_reset_instruction_alone() {
    let mut driver = MCP2518FD::new(Mock::new());
    assert_eq!(driver.reset(), Ok(()));
    assert_eq!(driver.free().log, vec![Op::Write(0, vec![])]);
}

#[test]
fn mode_change_that_is_never_acknowledged_times_out() {
    let mut mock = Mock::new();
    mock.pinned.insert(C1CON, 0);
    let mut driver = MCP2518FD::new(mock);
    let mut delay = CountingDelay { calls: Vec::new() };
    assert_eq!(
        driver.set_op_mode(OperationMode::Configuration, &mut delay),
        Err(ConfigError::ChangeOpModeTimeout)
    );
    assert_eq!(delay.calls, vec![500; 4]);
    let mock = driver.free();
    let reads = mock.log.iter().filter(|op| **op == Op::Read(C1CON, 4)).count();
    assert_eq!(reads, 6);
}

#[test]
fn mode_change_acknowledged_at_once_succeeds() {
    let mut mock = Mock::new();
    mock.pinned.insert(C1CON, 4 << 21);
    let mut driver = MCP2518FD::new(mock);
    let mut delay = CountingDelay { calls: Vec::new() };
    assert_eq!(driver.set_op_mode(OperationMode::Configuration, &mut delay), Ok(()));
    assert!(delay.calls.is_empty());
    assert_eq!(driver.get_op_mode(), Ok(OperationMode::Configuration));
}

#[test]
fn mode_change_over_a_failing_transport_is_a_configuration_timeout() {
    let mut mock = Mock::new();
    mock.fail_reads = true;
    let mut driver = MCP2518FD::new(mock);
    let mut delay = CountingDelay { calls: Vec::new() };
    assert_eq!(
        driver.set_op_mode(OperationMode::Configuration, &mut delay),
        Err(ConfigError::ConfigurationModeTimeout)
    );
}

fn settings() -> Settings {
    Settings {
        oscillator: OscillatorConfiguration::new(Pll::Off, SysClkDivider::DivByTwo),
        io_configuration: IoConfiguration::new().with_tx_standby_pin(true),
        bit_time_configuration: BitTimeConfiguration::new(
            NominalBitTimeConfiguration::rate_500_kbit(),
            DataBitTimeConfiguration::rate_2_mbit(),
        ),
        tx_event_fifo: None,
        tx_queue: Some(TxQueueConfiguration::new(1, 8, PayloadSize::Bytes32)),
        enable_time_based_counter: false,
        data_bits_to_match: None,
        enable_can_error_interrupts: true,
        enable_spi_error_interrupt: false,
        enable_ecc_error_interrupt: false,
    }
}

#[test]
fn configuration_sequence_writes_every_register() {
    let mut mock = Mock::new();
    mock.pinned.insert(C1CON, 4 << 21);
    let mut driver = MCP2518FD::new(mock);
    let mut delay = CountingDelay { calls: Vec::new() };
    assert_eq!(driver.configure(settings(), &mut delay), Ok(()));
    let mock = driver.free();
    assert_eq!(mock.reg(0xE00), 1 << 4);
    assert_eq!(mock.reg(0xE04), 1 << 6);
    assert_eq!(mock.reg(0x4), (0 << 24) | (62 << 16) | (15 << 8) | 15);
    assert_eq!(mock.reg(0x8), (14 << 16) | (3 << 8) | 3);
    assert_eq!(mock.reg(0xC), (2 << 16) | (15 << 8));
    assert_eq!(mock.reg(C1TXQCON), (2 << 21) | (1 << 16) | (7 << 24) | (5 << 29));
    assert_eq!(mock.reg(0x1C), (1 << 17) | (1 << 16) | (1 << 31) | (1 << 29) | (1 << 28));
    let echo_writes = mock.writes().iter().filter(|w| w.0 == 0x400).count();
    assert_eq!(echo_writes, 32);
}

#[test]
fn configuration_stops_at_a_failed_echo() {
    let mut mock = Mock::new();
    mock.pinned.insert(C1CON, 4 << 21);
    mock.corrupt_echo = Some(0);
    let mut driver = MCP2518FD::new(mock);
    let mut delay = CountingDelay { calls: Vec::new() };
    assert_eq!(driver.configure(settings(), &mut delay), Err(ConfigError::SPIFailedRAMEcho));
    let mock = driver.free();
    assert_eq!(mock.reg(0xE00), 0);
}

#[test]
fn pll_that_never_locks_times_out() {
    let mut driver = MCP2518FD::new(Mock::new());
    let mut delay = CountingDelay { calls: Vec::new() };
    let osc = OscillatorConfiguration::new(Pll::On, SysClkDivider::DivByOne);
    assert_eq!(driver.configure_osc(osc, &mut delay), Err(ConfigError::PLLNotReady));
    assert_eq!(delay.calls, vec![500; 2]);
}

#[test]
fn long_echo_test_passes_on_working_ram() {
    let mut driver = MCP2518FD::new(Mock::new());
    assert_eq!(driver.verify_spi_communications_long(), Ok(()));
    assert_eq!(driver.verify_spi_communications(), Ok(()));
    let mut mock = Mock::new();
    mock.fail_writes = true;
    let mut driver = MCP2518FD::new(mock);
    assert_eq!(driver.verify_spi_communications(), Err(ConfigError::ConfigurationModeTimeout));
}

#[test]
fn fifo_and_filter_configuration() {
    let mut driver = MCP2518FD::new(Mock::new());
    let tx = FifoConfiguration::new(4, PayloadSize::Bytes64, FifoMode::Transmit(TxFifoConfiguration::new(3)));
    assert_eq!(driver.configure_fifo(FifoNumber::Fifo3, tx), Ok(()));
    let rx = FifoConfiguration::new(
        2,
        PayloadSize::Bytes8,
        FifoMode::Receive(RxFifoConfiguration::new().with_message_timestamps(true)),
    );
    assert_eq!(driver.configure_fifo(FifoNumber::Fifo1, rx), Ok(()));
    let filter = FilterConfiguration {
        buffer_pointer: FifoNumber::Fifo1,
        mode: FilterMatchMode::StandardOnly,
        filter_bits: CanId::Standard(0x120),
        mask_bits: CanId::Extended(0x1FFF_FFFF),
    };
    assert_eq!(driver.configure_filter(FilterNumber::Filter5, Some(filter)), Ok(()));
    let mock = driver.free();
    assert_eq!(mock.reg(fifocon(3)), (3 << 24) | (7 << 29) | (1 << 7) | (3 << 16) | (2 << 21));
    assert_eq!(mock.reg(fifocon(1)), (1 << 24) | (1 << 5));
    // filter 5: control group 1, index 1
    assert_eq!(mock.reg(0x1D4), (1 << 8) | (1 << 15));
    assert_eq!(mock.reg(0x1F0 + 8 * 5), 0x120);
    assert_eq!(mock.reg(0x1F4 + 8 * 5), 0x7FF | (0x3FFFF << 11) | (1 << 30));
}

#[test]
fn disabling_a_filter_only_clears_its_enable_bit() {
    let mut mock = Mock::new();
    mock.regs.insert(0x1D0, 0xFFFF_FFFF);
    let mut driver = MCP2518FD::new(mock);
    assert_eq!(driver.configure_filter(FilterNumber::Filter0, None), Ok(()));
    let mock = driver.free();
    assert_eq!(mock.reg(0x1D0), 0xFFFF_FF7F);
    assert_eq!(mock.writes().len(), 1);
}

#[test]
fn interrupt_status_reads_the_registers() {
    let mut mock = Mock::new();
    mock.regs.insert(0x20, 1 << 3);
    mock.regs.insert(0x18, 0x40);
    let mut driver = MCP2518FD::new(mock);
    assert!(driver.get_rx_interrupt_statuses().unwrap().get_interrupt(FifoNumber::Fifo3));
    assert_eq!(driver.get_highest_interrupt_codes().unwrap().0, 0x40);
    assert_eq!(driver.get_top_level_interrupt_statuses().unwrap().0, 0);
    assert_eq!(driver.get_tx_interrupt_statuses().unwrap().0, 0);
    assert_eq!(driver.get_tx_attempt_interrupt_statuses().unwrap().0, 0);
    assert_eq!(driver.get_rx_overflow_interrupt_statuses().unwrap().0, 0);
}

#[test]
fn push_with_a_failing_ram_write_reports_a_write_error() {
    let mut mock = mock_with_tx_queue();
    mock.fail_writes = true;
    let mut driver = MCP2518FD::new(mock);
    let msg = TxMessage::new_2_0(CanId::Standard(1), &[1]).unwrap();
    assert_eq!(driver.tx_queue_push_message(&msg), Err(Error::SPIWrite));
    assert_eq!(driver.free().writes().len(), 1);
}

#[test]
fn operation_errors_map_into_configuration_errors() {
    assert_eq!(ConfigError::from(Error::SPIRead), ConfigError::ConfigurationModeTimeout);
    assert_eq!(ConfigError::from(Error::SPIWrite), ConfigError::ConfigurationModeTimeout);
    assert_eq!(ConfigError::from(Error::FifoFull), ConfigError::Other(Error::FifoFull));
}

#[test]
fn push_into_a_ram_slot_outside_ram_is_refused() {
    let mut mock = mock_with_tx_queue();
    mock.regs.insert(C1TXQUA, 0x7FC);
    let mut driver = MCP2518FD::new(mock);
    let msg = TxMessage::new_2_0(CanId::Standard(1), &[1, 2, 3, 4, 5]).unwrap();
    assert_eq!(driver.tx_queue_push_message(&msg), Err(Error::InvalidRamAddress(0xBFC)));
    assert!(driver.free().writes().is_empty());
}
