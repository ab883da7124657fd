use mcp2518fd::memory::chip::{CrcRegister, OscillatorControlRegister};
use mcp2518fd::memory::controller::configuration::{
    CanControlRegister, DataBits, InterTransmissionDelay, OperationMode,
    TransmitterDelayCompensationMode, TransmitterDelayCompensationRegister, WakeupFilterTime,
};
use mcp2518fd::memory::controller::fifo::{
    FifoControlRegister, FifoNumber, PayloadSize, RetransmissionAttempts, TxQueueControlRegister,
    UserAddressRegister,
};
use mcp2518fd::memory::controller::filter::{FilterControlIndex, FilterControlRegister, FilterNumber};
use mcp2518fd::memory::controller::interrupt::{
    InterruptCodeRegister, InterruptFlagCode, RxInterruptFlagCode, RxInterruptStatusRegister,
    TxInterruptFlagCode, TxInterruptStatusRegister,
};
use mcp2518fd::memory::{is_valid_ram_address, RepeatedRegister, SFRAddress, RAM_BASE_ADDRESS, RAM_END_ADDRESS};
use mcp2518fd::spi::{Instruction, OPCODE_READ, OPCODE_WRITE};

#[test]
fn ram_range_gate() {
    assert!(is_valid_ram_address(RAM_BASE_ADDRESS, 4));
    assert!(is_valid_ram_address(RAM_END_ADDRESS - 3, 4));
    assert!(!is_valid_ram_address(RAM_END_ADDRESS + 1, 4));
    assert!(!is_valid_ram_address(RAM_END_ADDRESS - 2, 4));
    assert!(!is_valid_ram_address(RAM_BASE_ADDRESS - 4, 4));
    // The range gate alone accepts a length that is not a whole word.
    assert!(is_valid_ram_address(RAM_BASE_ADDRESS, 3));
    assert!(!is_valid_ram_address(0xFFFF_FFFF, usize::MAX));
}

#[test]
fn flags_and_fields_read_back() {
    let mut osc = OscillatorControlRegister(0);
    osc.set_pllen(true);
    osc.set_clkodiv(3);
    assert_eq!(osc.0, 0b110_0001);
    assert!(osc.pllen());
    assert_eq!(osc.clkodiv(), 3);
    osc.set_clkodiv(0xFF);
    assert_eq!(osc.clkodiv(), 3);
    osc.set_pllen(false);
    assert_eq!(osc.0, 0b110_0000);
    assert!(!OscillatorControlRegister(0).pllrdy());
    assert!(OscillatorControlRegister(1 << 8).pllrdy());
}

#[test]
fn clearable_flags_only_clear() {
    let mut crc = CrcRegister(0xFFFF_FFFF);
    assert!(crc.crcerrif());
    crc.clear_crcerrif();
    assert!(!crc.crcerrif());
    assert!(crc.ferrif());
    assert_eq!(crc.0, 0xFFFE_FFFF);
    assert_eq!(CrcRegister(0x1234_ABCD).crc(), 0xABCD);
}

#[test]
fn control_register_enumerated_fields() {
    let mut con = CanControlRegister(0);
    con.set_dncnt(DataBits::Bits18);
    assert_eq!(con.dncnt(), Ok(DataBits::Bits18));
    assert_eq!(CanControlRegister(0).dncnt().unwrap_err().number, 0);
    con.set_wft(WakeupFilterTime::T10Filter);
    assert_eq!(con.wft(), Ok(WakeupFilterTime::T10Filter));
    con.set_txbws(InterTransmissionDelay::Delay4096);
    assert_eq!(con.txbws(), Ok(InterTransmissionDelay::Delay4096));
    assert_eq!(CanControlRegister(15 << 28).txbws().unwrap_err().number, 15);
    con.set_opmode(OperationMode::Configuration);
    assert_eq!((con.0 >> 24) & 7, 4);
    assert_eq!(CanControlRegister(4 << 21).opmode(), OperationMode::Configuration);
    assert_eq!(CanControlRegister(7 << 21).opmode(), OperationMode::Restricted);
}

#[test]
fn delay_compensation_mode_three_reads_automatic() {
    let mut tdc = TransmitterDelayCompensationRegister(3 << 16);
    assert_eq!(tdc.tdcmod(), Ok(TransmitterDelayCompensationMode::Automatic));
    tdc.set_tdcmod(TransmitterDelayCompensationMode::Manual);
    assert_eq!(tdc.tdcmod(), Ok(TransmitterDelayCompensationMode::Manual));
    assert_eq!(tdc.0, 1 << 16);
}

#[test]
fn fifo_size_is_clamped_to_one_to_thirty_two() {
    let mut c = FifoControlRegister(0);
    c.set_fifo_size(8);
    assert_eq!(c.fifo_size(), 8);
    assert_eq!((c.0 >> 24) & 0x1F, 7);
    c.set_fifo_size(40);
    assert_eq!(c.fifo_size(), 32);
    c.set_fifo_size(0);
    assert_eq!(c.fifo_size(), 32);
    c.set_fifo_size(1);
    assert_eq!(c.fifo_size(), 1);
}

#[test]
fn payload_size_and_retransmissions_round_trip() {
    let mut q = TxQueueControlRegister(0);
    q.set_payload_size(PayloadSize::Bytes32);
    assert_eq!(q.payload_size(), PayloadSize::Bytes32);
    assert_eq!(q.payload_size().num_bytes(), 32);
    q.set_retransmission_attempts(RetransmissionAttempts::ThreeRetries);
    assert_eq!(q.retransmission_attempts(), RetransmissionAttempts::ThreeRetries);
    assert_eq!(TxQueueControlRegister(3 << 21).retransmission_attempts(), RetransmissionAttempts::UnlimitedRetries);
    assert_eq!(RetransmissionAttempts::default(), RetransmissionAttempts::UnlimitedRetries);
    assert_eq!(PayloadSize::Bytes64.num_bytes(), 65);
    assert_eq!(PayloadSize::Bytes8.num_bytes(), 8);
}

#[test]
fn user_address_points_into_ram() {
    assert_eq!(UserAddressRegister(0x10).calculate_ram_address(), 0x410);
    assert_eq!(UserAddressRegister(0xFFFF_FFFF).calculate_ram_address(), 0x3FF);
}

#[test]
fn repeated_registers_resolve_to_their_addresses() {
    assert_eq!(FifoControlRegister::get_address_for(FifoNumber::Fifo1).address(), 0x5C);
    assert_eq!(FifoControlRegister::get_address_for(FifoNumber::Fifo31).address(), 0x1C4);
    assert_eq!(
        UserAddressRegister::get_address_for(mcp2518fd::memory::controller::fifo::UserAddressKind::TxQueue).address(),
        0x58
    );
    assert_eq!(SFRAddress::C1MASK31.address(), 0x2EC);
    assert_eq!(SFRAddress::OSC.address(), 0xE00);
}

#[test]
fn filters_map_to_control_groups() {
    let (group, index) = FilterNumber::Filter13.get_control_register();
    assert_eq!(group.value(), 3);
    assert_eq!(index, FilterControlIndex::Filter1);
    let mut c = FilterControlRegister(0);
    c.set_buffer_pointer(FilterControlIndex::Filter2, FifoNumber::Fifo5);
    c.set_enabled(FilterControlIndex::Filter2, true);
    assert_eq!(c.0, (5 << 16) | (1 << 23));
    assert!(c.is_enabled(FilterControlIndex::Filter2));
    assert!(!c.is_enabled(FilterControlIndex::Filter0));
    assert_eq!(c.get_buffer_pointer(FilterControlIndex::Filter2), Some(FifoNumber::Fifo5));
    assert_eq!(c.get_buffer_pointer(FilterControlIndex::Filter0), None);
}

#[test]
fn interrupt_codes_decode() {
    let vec = InterruptCodeRegister(0x40 | (3 << 8) | (0x00 << 16) | (0x05 << 24));
    assert_eq!(vec.generic_code(), InterruptFlagCode::NoInterrupt);
    assert_eq!(vec.filter_hit().value(), 3);
    assert_eq!(vec.tx_code(), TxInterruptFlagCode::TxqInterrupt);
    assert_eq!(vec.rx_code(), RxInterruptFlagCode::FifoInterrupt(FifoNumber::Fifo5));
    assert_eq!(InterruptFlagCode::from_code(0x4A), InterruptFlagCode::TransmitAttemptInterrupt);
    assert_eq!(InterruptFlagCode::from_code(0x21), InterruptFlagCode::Reserved);
    assert_eq!(RxInterruptFlagCode::from_code(0), RxInterruptFlagCode::Reserved);
    assert_eq!(TxInterruptFlagCode::from_code(0x7F), TxInterruptFlagCode::Reserved);
}

#[test]
fn per_fifo_interrupt_flags() {
    let rx = RxInterruptStatusRegister(1 << 7);
    assert!(rx.get_interrupt(FifoNumber::Fifo7));
    assert!(!rx.get_interrupt(FifoNumber::Fifo6));
    let tx = TxInterruptStatusRegister(1);
    assert!(tx.get_tx_queue_interrupt());
    assert!(!tx.get_tx_fifo_interrupt(FifoNumber::Fifo1));
}

#[test]
fn instruction_is_big_endian_opcode_and_address() {
    assert_eq!(Instruction::new(OPCODE_READ, 0x400).into_spi_data(), [0x34, 0x00]);
    assert_eq!(Instruction::new(OPCODE_WRITE, 0xE04).into_spi_data(), [0x2E, 0x04]);
    assert_eq!(Instruction::new(0, 0).into_spi_data(), [0, 0]);
}
