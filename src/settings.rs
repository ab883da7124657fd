//! Settings for the configuration sequence, built with chained setters.
use vstd::prelude::*;

use crate::memory::controller::configuration::DataBits;
use crate::memory::controller::fifo::{FifoNumber, PayloadSize, RetransmissionAttempts};
use crate::message::tx::CanId;

verus! {

/// Whether the system clock comes from the 10x PLL.
#[derive(Debug, Clone, Copy, PartialEq, Eq, Structural)]
pub enum Pll {
    Off,
    On,
}

impl Default for Pll {
    fn default() -> (r: Self)
        ensures
            r == Pll::Off,
    {
        Pll::Off
    }
}

/// Divider applied to the system clock.
#[derive(Debug, Clone, Copy, PartialEq, Eq, Structural)]
pub enum SysClkDivider {
    DivByOne,
    DivByTwo,
}

impl Default for SysClkDivider {
    fn default() -> (r: Self)
        ensures
            r == SysClkDivider::DivByOne,
    {
        SysClkDivider::DivByOne
    }
}

#[derive(Debug, Clone, Copy, PartialEq, Eq, Structural)]
pub struct OscillatorConfiguration {
    pub pll: Pll,
    pub divider: SysClkDivider,
}

impl OscillatorConfiguration {
    pub fn new(pll: Pll, divider: SysClkDivider) -> (r: Self)
        ensures
            r == (OscillatorConfiguration { pll, divider }),
    {
        OscillatorConfiguration { pll, divider }
    }
}

impl Default for OscillatorConfiguration {
    fn default() -> (r: Self)
        ensures
            r == (OscillatorConfiguration { pll: Pll::Off, divider: SysClkDivider::DivByOne }),
    {
        OscillatorConfiguration { pll: Pll::Off, divider: SysClkDivider::DivByOne }
    }
}

/// Pin settings; all off by default.
#[derive(Debug, Clone, Copy, PartialEq, Eq, Structural)]
pub struct IoConfiguration {
    pub enable_tx_standby_pin: bool,
    pub tx_can_open_drain: bool,
    pub start_of_frame_on_clko: bool,
    pub interrupt_pin_open_drain: bool,
}

impl IoConfiguration {
    pub fn new() -> (r: Self)
        ensures
            r == (IoConfiguration {
                enable_tx_standby_pin: false,
                tx_can_open_drain: false,
                start_of_frame_on_clko: false,
                interrupt_pin_open_drain: false,
            }),
    {
        IoConfiguration {
            enable_tx_standby_pin: false,
            tx_can_open_drain: false,
            start_of_frame_on_clko: false,
            interrupt_pin_open_drain: false,
        }
    }

    pub fn with_tx_standby_pin(self, enable_tx_standby_pin: bool) -> (r: Self)
        ensures
            r == (IoConfiguration { enable_tx_standby_pin: enable_tx_standby_pin, ..self }),
    {
        IoConfiguration { enable_tx_standby_pin: enable_tx_standby_pin, ..self }
    }

    pub fn with_tx_can_open_drain(self, tx_can_open_drain: bool) -> (r: Self)
        ensures
            r == (IoConfiguration { tx_can_open_drain: tx_can_open_drain, ..self }),
    {
        IoConfiguration { tx_can_open_drain: tx_can_open_drain, ..self }
    }

    pub fn with_start_of_frame_on_clko(self, start_of_frame_on_clko: bool) -> (r: Self)
        ensures
            r == (IoConfiguration { start_of_frame_on_clko: start_of_frame_on_clko, ..self }),
    {
        IoConfiguration { start_of_frame_on_clko: start_of_frame_on_clko, ..self }
    }

    pub fn interrupt_pin_open_drain(self, interrupt_pin_open_drain: bool) -> (r: Self)
        ensures
            r == (IoConfiguration { interrupt_pin_open_drain: interrupt_pin_open_drain, ..self }),
    {
        IoConfiguration { interrupt_pin_open_drain: interrupt_pin_open_drain, ..self }
    }
}

impl Default for IoConfiguration {
    fn default() -> (r: Self)
        ensures
            r == (IoConfiguration {
                enable_tx_standby_pin: false,
                tx_can_open_drain: false,
                start_of_frame_on_clko: false,
                interrupt_pin_open_drain: false,
            }),
    {
        IoConfiguration::new()
    }
}

/// Nominal (arbitration phase) bit timing. `time_segment_2` and
/// `synchronization_jump_width` are 7-bit fields.
#[derive(Debug, Clone, Copy, PartialEq, Eq, Structural)]
pub struct NominalBitTimeConfiguration {
    pub baud_rate_prescaler: u8,
    pub time_segment_1: u8,
    pub time_segment_2: u8,
    pub synchronization_jump_width: u8,
}

impl NominalBitTimeConfiguration {
    pub open spec fn wf(self) -> bool {
        self.time_segment_2 < 128 && self.synchronization_jump_width < 128
    }

    /// 100 kbit/s; buses up to 550 m.
    pub fn rate_100_kbit() -> (r: Self)
        ensures
            r.wf(),
            r == (NominalBitTimeConfiguration { baud_rate_prescaler: 1, time_segment_1: 158, time_segment_2: 39, synchronization_jump_width: 39 }),
    {
        NominalBitTimeConfiguration { baud_rate_prescaler: 1, time_segment_1: 158, time_segment_2: 39, synchronization_jump_width: 39 }
    }

    /// 125 kbit/s; buses up to 440 m.
    pub fn rate_125_kbit() -> (r: Self)
        ensures
            r.wf(),
            r == (NominalBitTimeConfiguration { baud_rate_prescaler: 0, time_segment_1: 254, time_segment_2: 63, synchronization_jump_width: 63 }),
    {
        NominalBitTimeConfiguration { baud_rate_prescaler: 0, time_segment_1: 254, time_segment_2: 63, synchronization_jump_width: 63 }
    }

    /// 250 kbit/s; buses up to 200 m.
    pub fn rate_250_kbit() -> (r: Self)
        ensures
            r.wf(),
            r == (NominalBitTimeConfiguration { baud_rate_prescaler: 0, time_segment_1: 126, time_segment_2: 31, synchronization_jump_width: 31 }),
    {
        NominalBitTimeConfiguration { baud_rate_prescaler: 0, time_segment_1: 126, time_segment_2: 31, synchronization_jump_width: 31 }
    }

    /// 500 kbit/s; buses up to 80 m.
    pub fn rate_500_kbit() -> (r: Self)
        ensures
            r.wf(),
            r == (NominalBitTimeConfiguration { baud_rate_prescaler: 0, time_segment_1: 62, time_segment_2: 15, synchronization_jump_width: 15 }),
    {
        NominalBitTimeConfiguration { baud_rate_prescaler: 0, time_segment_1: 62, time_segment_2: 15, synchronization_jump_width: 15 }
    }

    /// 1 Mbit/s; buses up to 20 m.
    pub fn rate_1_mbit() -> (r: Self)
        ensures
            r.wf(),
            r == (NominalBitTimeConfiguration { baud_rate_prescaler: 0, time_segment_1: 30, time_segment_2: 7, synchronization_jump_width: 7 }),
    {
        NominalBitTimeConfiguration { baud_rate_prescaler: 0, time_segment_1: 30, time_segment_2: 7, synchronization_jump_width: 7 }
    }
}

/// Data phase bit timing: 5-bit first segment, 4-bit second segment and
/// jump width, 7-bit transmitter delay compensation offset.
#[derive(Debug, Clone, Copy, PartialEq, Eq, Structural)]
pub struct DataBitTimeConfiguration {
    pub baud_rate_prescaler: u8,
    pub time_segment_1: u8,
    pub time_segment_2: u8,
    pub synchronization_jump_width: u8,
    pub transmitter_delay_compensation_offset: u8,
}

impl DataBitTimeConfiguration {
    pub open spec fn wf(self) -> bool {
        &&& self.time_segment_1 < 32
        &&& self.time_segment_2 < 16
        &&& self.synchronization_jump_width < 16
        &&& self.transmitter_delay_compensation_offset < 128
    }

    pub fn rate_500_kbit() -> (r: Self)
        ensures
            r.wf(),
            r == (DataBitTimeConfiguration { baud_rate_prescaler: 1, time_segment_1: 30, time_segment_2: 7, synchronization_jump_width: 7, transmitter_delay_compensation_offset: 62 }),
    {
        DataBitTimeConfiguration { baud_rate_prescaler: 1, time_segment_1: 30, time_segment_2: 7, synchronization_jump_width: 7, transmitter_delay_compensation_offset: 62 }
    }

    pub fn rate_1_mbit() -> (r: Self)
        ensures
            r.wf(),
            r == (DataBitTimeConfiguration { baud_rate_prescaler: 0, time_segment_1: 30, time_segment_2: 7, synchronization_jump_width: 7, transmitter_delay_compensation_offset: 31 }),
    {
        DataBitTimeConfiguration { baud_rate_prescaler: 0, time_segment_1: 30, time_segment_2: 7, synchronization_jump_width: 7, transmitter_delay_compensation_offset: 31 }
    }

    pub fn rate_2_mbit() -> (r: Self)
        ensures
            r.wf(),
            r == (DataBitTimeConfiguration { baud_rate_prescaler: 0, time_segment_1: 14, time_segment_2: 3, synchronization_jump_width: 3, transmitter_delay_compensation_offset: 15 }),
    {
        DataBitTimeConfiguration { baud_rate_prescaler: 0, time_segment_1: 14, time_segment_2: 3, synchronization_jump_width: 3, transmitter_delay_compensation_offset: 15 }
    }

    pub fn rate_5_mbit() -> (r: Self)
        ensures
            r.wf(),
            r == (DataBitTimeConfiguration { baud_rate_prescaler: 0, time_segment_1: 4, time_segment_2: 1, synchronization_jump_width: 1, transmitter_delay_compensation_offset: 5 }),
    {
        DataBitTimeConfiguration { baud_rate_prescaler: 0, time_segment_1: 4, time_segment_2: 1, synchronization_jump_width: 1, transmitter_delay_compensation_offset: 5 }
    }
}

/// Bit timing of both phases. Equal prescalers in both phases avoid
/// quantization errors when the bit rate switches.
#[derive(Debug, Clone, Copy, PartialEq, Eq, Structural)]
pub struct BitTimeConfiguration {
    pub nominal: NominalBitTimeConfiguration,
    pub data: DataBitTimeConfiguration,
}

impl BitTimeConfiguration {
    pub open spec fn wf(self) -> bool {
        self.nominal.wf() && self.data.wf()
    }

    pub fn new(nominal: NominalBitTimeConfiguration, data: DataBitTimeConfiguration) -> (r: Self)
        ensures
            r == (BitTimeConfiguration { nominal, data }),
    {
        BitTimeConfiguration { nominal, data }
    }
}

/// Transmit event FIFO settings: depth from 1 to 32, timestamps and
/// interrupts off by default.
#[derive(Debug, Clone, Copy, PartialEq, Eq, Structural)]
pub struct TxEventFifoConfiguration {
    pub fifo_size: u8,
    pub enable_timestamps: bool,
    pub enable_fifo_overflow_interrupt: bool,
    pub enable_fifo_full_interrupt: bool,
    pub enable_fifo_half_full_interrupt: bool,
    pub enable_fifo_not_empty_interrupt: bool,
}

impl TxEventFifoConfiguration {
    pub fn new(fifo_size: u8) -> (r: Self)
        ensures
            r == (TxEventFifoConfiguration {
                fifo_size,
                enable_timestamps: false,
                enable_fifo_overflow_interrupt: false,
                enable_fifo_full_interrupt: false,
                enable_fifo_half_full_interrupt: false,
                enable_fifo_not_empty_interrupt: false,
            }),
    {
        TxEventFifoConfiguration {
            fifo_size,
            enable_timestamps: false,
            enable_fifo_overflow_interrupt: false,
            enable_fifo_full_interrupt: false,
            enable_fifo_half_full_interrupt: false,
            enable_fifo_not_empty_interrupt: false,
        }
    }

    pub fn with_timestamps(self, enable_timestamps: bool) -> (r: Self)
        ensures
            r == (TxEventFifoConfiguration { enable_timestamps: enable_timestamps, ..self }),
    {
        TxEventFifoConfiguration { enable_timestamps: enable_timestamps, ..self }
    }

    pub fn with_fifo_overflow_interrupt(self, enable_fifo_overflow_interrupt: bool) -> (r: Self)
        ensures
            r == (TxEventFifoConfiguration { enable_fifo_overflow_interrupt: enable_fifo_overflow_interrupt, ..self }),
    {
        TxEventFifoConfiguration { enable_fifo_overflow_interrupt: enable_fifo_overflow_interrupt, ..self }
    }

    pub fn with_fifo_full_interrupt(self, enable_fifo_full_interrupt: bool) -> (r: Self)
        ensures
            r == (TxEventFifoConfiguration { enable_fifo_full_interrupt: enable_fifo_full_interrupt, ..self }),
    {
        TxEventFifoConfiguration { enable_fifo_full_interrupt: enable_fifo_full_interrupt, ..self }
    }

    pub fn with_fifo_half_full_interrupt(self, enable_fifo_half_full_interrupt: bool) -> (r: Self)
        ensures
            r == (TxEventFifoConfiguration { enable_fifo_half_full_interrupt: enable_fifo_half_full_interrupt, ..self }),
    {
        TxEventFifoConfiguration { enable_fifo_half_full_interrupt: enable_fifo_half_full_interrupt, ..self }
    }

    pub fn with_fifo_not_empty_interrupt(self, enable_fifo_not_empty_interrupt: bool) -> (r: Self)
        ensures
            r == (TxEventFifoConfiguration { enable_fifo_not_empty_interrupt: enable_fifo_not_empty_interrupt, ..self }),
    {
        TxEventFifoConfiguration { enable_fifo_not_empty_interrupt: enable_fifo_not_empty_interrupt, ..self }
    }
}

/// Transmit queue settings.
#[derive(Debug, Clone, Copy, PartialEq, Eq, Structural)]
pub struct TxQueueConfiguration {
    pub message_priority: u8,
    pub retransmission_attempts: RetransmissionAttempts,
    pub fifo_size: u8,
    pub payload_size: PayloadSize,
    pub enable_transmit_attempts_exhausted_interrupt: bool,
    pub enable_queue_empty_interrupt: bool,
    pub enable_queue_not_full_interrupt: bool,
}

impl TxQueueConfiguration {
    pub fn new(message_priority: u8, fifo_size: u8, payload_size: PayloadSize) -> (r: Self)
        ensures
            r == (TxQueueConfiguration {
                message_priority,
                retransmission_attempts: RetransmissionAttempts::UnlimitedRetries,
                fifo_size,
                payload_size,
                enable_transmit_attempts_exhausted_interrupt: false,
                enable_queue_empty_interrupt: false,
                enable_queue_not_full_interrupt: false,
            }),
    {
        TxQueueConfiguration {
            message_priority,
            retransmission_attempts: RetransmissionAttempts::UnlimitedRetries,
            fifo_size,
            payload_size,
            enable_transmit_attempts_exhausted_interrupt: false,
            enable_queue_empty_interrupt: false,
            enable_queue_not_full_interrupt: false,
        }
    }

    pub fn with_retransmission_attempts(self, retransmission_attempts: RetransmissionAttempts) -> (r: Self)
        ensures
            r == (TxQueueConfiguration { retransmission_attempts: retransmission_attempts, ..self }),
    {
        TxQueueConfiguration { retransmission_attempts: retransmission_attempts, ..self }
    }

    pub fn with_transmit_attempts_exhausted_interrupt(self, enable_transmit_attempts_exhausted_interrupt: bool) -> (r: Self)
        ensures
            r == (TxQueueConfiguration { enable_transmit_attempts_exhausted_interrupt: enable_transmit_attempts_exhausted_interrupt, ..self }),
    {
        TxQueueConfiguration { enable_transmit_attempts_exhausted_interrupt: enable_transmit_attempts_exhausted_interrupt, ..self }
    }

    pub fn with_queue_empty_interrupt(self, enable_queue_empty_interrupt: bool) -> (r: Self)
        ensures
            r == (TxQueueConfiguration { enable_queue_empty_interrupt: enable_queue_empty_interrupt, ..self }),
    {
        TxQueueConfiguration { enable_queue_empty_interrupt: enable_queue_empty_interrupt, ..self }
    }

    pub fn with_queue_not_full_interrupt(self, enable_queue_not_full_interrupt: bool) -> (r: Self)
        ensures
            r == (TxQueueConfiguration { enable_queue_not_full_interrupt: enable_queue_not_full_interrupt, ..self }),
    {
        TxQueueConfiguration { enable_queue_not_full_interrupt: enable_queue_not_full_interrupt, ..self }
    }
}

/// Everything the configuration sequence sets.
#[derive(Debug, Clone, Copy, PartialEq, Eq, Structural)]
pub struct Settings {
    pub oscillator: OscillatorConfiguration,
    pub io_configuration: IoConfiguration,
    pub bit_time_configuration: BitTimeConfiguration,
    pub tx_event_fifo: Option<TxEventFifoConfiguration>,
    pub tx_queue: Option<TxQueueConfiguration>,
    pub enable_time_based_counter: bool,
    pub data_bits_to_match: Option<DataBits>,
    pub enable_can_error_interrupts: bool,
    pub enable_spi_error_interrupt: bool,
    pub enable_ecc_error_interrupt: bool,
}

/// Direction of a general FIFO.
#[derive(Debug, Clone, Copy, PartialEq, Eq, Structural)]
pub enum FifoMode {
    Transmit(TxFifoConfiguration),
    Receive(RxFifoConfiguration),
}

/// Settings of a transmit FIFO. `priority` goes up to 31.
#[derive(Debug, Clone, Copy, PartialEq, Eq, Structural)]
pub struct TxFifoConfiguration {
    pub priority: u8,
    pub retransmission_attempts: RetransmissionAttempts,
    pub enable_auto_rtr: bool,
    pub enable_transmit_attempts_exhausted_interrupt: bool,
    pub enable_fifo_empty_interrupt: bool,
    pub enable_fifo_half_empty_interrupt: bool,
    pub enable_fifo_not_full_interrupt: bool,
}

impl TxFifoConfiguration {
    pub fn new(priority: u8) -> (r: Self)
        ensures
            r == (TxFifoConfiguration {
                priority,
                retransmission_attempts: RetransmissionAttempts::UnlimitedRetries,
                enable_auto_rtr: false,
                enable_transmit_attempts_exhausted_interrupt: false,
                enable_fifo_empty_interrupt: false,
                enable_fifo_half_empty_interrupt: false,
                enable_fifo_not_full_interrupt: false,
            }),
    {
        TxFifoConfiguration {
            priority,
            retransmission_attempts: RetransmissionAttempts::UnlimitedRetries,
            enable_auto_rtr: false,
            enable_transmit_attempts_exhausted_interrupt: false,
            enable_fifo_empty_interrupt: false,
            enable_fifo_half_empty_interrupt: false,
            enable_fifo_not_full_interrupt: false,
        }
    }

    pub fn with_retransmission_attempts(self, retransmission_attempts: RetransmissionAttempts) -> (r: Self)
        ensures
            r == (TxFifoConfiguration { retransmission_attempts: retransmission_attempts, ..self }),
    {
        TxFifoConfiguration { retransmission_attempts: retransmission_attempts, ..self }
    }

    pub fn with_auto_rtr(self, enable_auto_rtr: bool) -> (r: Self)
        ensures
            r == (TxFifoConfiguration { enable_auto_rtr: enable_auto_rtr, ..self }),
    {
        TxFifoConfiguration { enable_auto_rtr: enable_auto_rtr, ..self }
    }

    pub fn with_transmit_attempts_exhausted_interrupt(self, enable_transmit_attempts_exhausted_interrupt: bool) -> (r: Self)
        ensures
            r == (TxFifoConfiguration { enable_transmit_attempts_exhausted_interrupt: enable_transmit_attempts_exhausted_interrupt, ..self }),
    {
        TxFifoConfiguration { enable_transmit_attempts_exhausted_interrupt: enable_transmit_attempts_exhausted_interrupt, ..self }
    }

    pub fn with_fifo_empty_interrupt(self, enable_fifo_empty_interrupt: bool) -> (r: Self)
        ensures
            r == (TxFifoConfiguration { enable_fifo_empty_interrupt: enable_fifo_empty_interrupt, ..self }),
    {
        TxFifoConfiguration { enable_fifo_empty_interrupt: enable_fifo_empty_interrupt, ..self }
    }

    pub fn with_fifo_half_empty_interrupt(self, enable_fifo_half_empty_interrupt: bool) -> (r: Self)
        ensures
            r == (TxFifoConfiguration { enable_fifo_half_empty_interrupt: enable_fifo_half_empty_interrupt, ..self }),
    {
        TxFifoConfiguration { enable_fifo_half_empty_interrupt: enable_fifo_half_empty_interrupt, ..self }
    }

    pub fn with_fifo_not_full_interrupt(self, enable_fifo_not_full_interrupt: bool) -> (r: Self)
        ensures
            r == (TxFifoConfiguration { enable_fifo_not_full_interrupt: enable_fifo_not_full_interrupt, ..self }),
    {
        TxFifoConfiguration { enable_fifo_not_full_interrupt: enable_fifo_not_full_interrupt, ..self }
    }
}

/// Settings of a receive FIFO; all off by default.
#[derive(Debug, Clone, Copy, PartialEq, Eq, Structural)]
pub struct RxFifoConfiguration {
    pub enable_message_timestamps: bool,
    pub enable_fifo_overflow_interrupt: bool,
    pub enable_fifo_full_interrupt: bool,
    pub enable_fifo_half_full_interrupt: bool,
    pub enable_fifo_not_empty_interrupt: bool,
}

impl RxFifoConfiguration {
    pub fn new() -> (r: Self)
        ensures
            r == (RxFifoConfiguration {
                enable_message_timestamps: false,
                enable_fifo_overflow_interrupt: false,
                enable_fifo_full_interrupt: false,
                enable_fifo_half_full_interrupt: false,
                enable_fifo_not_empty_interrupt: false,
            }),
    {
        RxFifoConfiguration {
            enable_message_timestamps: false,
            enable_fifo_overflow_interrupt: false,
            enable_fifo_full_interrupt: false,
            enable_fifo_half_full_interrupt: false,
            enable_fifo_not_empty_interrupt: false,
        }
    }

    pub fn with_message_timestamps(self, enable_message_timestamps: bool) -> (r: Self)
        ensures
            r == (RxFifoConfiguration { enable_message_timestamps: enable_message_timestamps, ..self }),
    {
        RxFifoConfiguration { enable_message_timestamps: enable_message_timestamps, ..self }
    }

    pub fn with_fifo_overflow_interrupt(self, enable_fifo_overflow_interrupt: bool) -> (r: Self)
        ensures
            r == (RxFifoConfiguration { enable_fifo_overflow_interrupt: enable_fifo_overflow_interrupt, ..self }),
    {
        RxFifoConfiguration { enable_fifo_overflow_interrupt: enable_fifo_overflow_interrupt, ..self }
    }

    pub fn with_fifo_full_interrupt(self, enable_fifo_full_interrupt: bool) -> (r: Self)
        ensures
            r == (RxFifoConfiguration { enable_fifo_full_interrupt: enable_fifo_full_interrupt, ..self }),
    {
        RxFifoConfiguration { enable_fifo_full_interrupt: enable_fifo_full_interrupt, ..self }
    }

    pub fn with_fifo_half_full_interrupt(self, enable_fifo_half_full_interrupt: bool) -> (r: Self)
        ensures
            r == (RxFifoConfiguration { enable_fifo_half_full_interrupt: enable_fifo_half_full_interrupt, ..self }),
    {
        RxFifoConfiguration { enable_fifo_half_full_interrupt: enable_fifo_half_full_interrupt, ..self }
    }

    pub fn with_fifo_not_empty_interrupt(self, enable_fifo_not_empty_interrupt: bool) -> (r: Self)
        ensures
            r == (RxFifoConfiguration { enable_fifo_not_empty_interrupt: enable_fifo_not_empty_interrupt, ..self }),
    {
        RxFifoConfiguration { enable_fifo_not_empty_interrupt: enable_fifo_not_empty_interrupt, ..self }
    }
}

impl Default for RxFifoConfiguration {
    fn default() -> (r: Self)
        ensures
            r == (RxFifoConfiguration {
                enable_message_timestamps: false,
                enable_fifo_overflow_interrupt: false,
                enable_fifo_full_interrupt: false,
                enable_fifo_half_full_interrupt: false,
                enable_fifo_not_empty_interrupt: false,
            }),
    {
        RxFifoConfiguration::new()
    }
}

/// Settings of a general FIFO: depth from 1 to 32, payload size and direction.
#[derive(Debug, Clone, Copy, PartialEq, Eq, Structural)]
pub struct FifoConfiguration {
    pub fifo_size: u8,
    pub payload_size: PayloadSize,
    pub mode: FifoMode,
}

impl FifoConfiguration {
    pub fn new(fifo_size: u8, payload_size: PayloadSize, mode: FifoMode) -> (r: Self)
        ensures
            r == (FifoConfiguration { fifo_size, payload_size, mode }),
    {
        FifoConfiguration { fifo_size, payload_size, mode }
    }
}

/// Settings of an acceptance filter: the FIFO it fills, which frames it
/// matches, and its identifier and mask bits.
#[derive(Debug, Clone, Copy, PartialEq, Eq, Structural)]
pub struct FilterConfiguration {
    pub buffer_pointer: FifoNumber,
    pub mode: FilterMatchMode,
    pub filter_bits: CanId,
    pub mask_bits: CanId,
}

/// Which identifier formats a filter accepts.
#[derive(Debug, Clone, Copy, PartialEq, Eq, Structural)]
pub enum FilterMatchMode {
    StandardOnly,
    ExtendedOnly,
    Both,
}

} // verus!
