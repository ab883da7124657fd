//! Interrupt registers: the interrupt code vector, the top-level flags and
//! the per-FIFO status bits.
use vstd::prelude::*;

use crate::bits::{field, flag, get_field, get_flag, put_field, put_flag, with_field, with_flag};
use crate::memory::controller::fifo::FifoNumber;
use crate::memory::controller::filter::FilterNumber;
use crate::memory::{Register, RegisterValue, SFRAddress};

verus! {

/// The FIFO named by an interrupt code from 1 to 31.
pub open spec fn fifo_of_code(value: u8) -> FifoNumber
    recommends
        1 <= value <= 31,
{
    FifoNumber::spec_from_value(value)->Some_0
}

fn fifo_for_code(value: u8) -> (r: FifoNumber)
    requires
        1 <= value <= 31,
    ensures
        r == fifo_of_code(value),
        r.spec_value() == value,
{
    match FifoNumber::try_from_value(value) {
        Some(f) => f,
        None => FifoNumber::Fifo1,
    }
}

/// Receive interrupt code: which receive FIFO raised the interrupt.
#[derive(Debug, Clone, Copy, PartialEq, Eq, Structural)]
pub enum RxInterruptFlagCode {
    NoInterrupt,
    FifoInterrupt(FifoNumber),
    Reserved,
}

impl RxInterruptFlagCode {
    pub open spec fn spec_from_code(value: u8) -> RxInterruptFlagCode {
        if 1 <= value <= 0x1F {
            RxInterruptFlagCode::FifoInterrupt(fifo_of_code(value))
        } else if value == 0x40 {
            RxInterruptFlagCode::NoInterrupt
        } else {
            RxInterruptFlagCode::Reserved
        }
    }

    /// Decodes a 7-bit receive interrupt code.
    pub fn from_code(value: u8) -> (r: RxInterruptFlagCode)
        requires
            value < 0x80,
        ensures
            r == Self::spec_from_code(value),
    {
        if 1 <= value && value <= 0x1F {
            RxInterruptFlagCode::FifoInterrupt(fifo_for_code(value))
        } else if value == 0x40 {
            RxInterruptFlagCode::NoInterrupt
        } else {
            RxInterruptFlagCode::Reserved
        }
    }
}

/// Transmit interrupt code: the transmit queue or the transmit FIFO that
/// raised the interrupt.
#[derive(Debug, Clone, Copy, PartialEq, Eq, Structural)]
pub enum TxInterruptFlagCode {
    NoInterrupt,
    TxqInterrupt,
    FifoInterrupt(FifoNumber),
    Reserved,
}

impl TxInterruptFlagCode {
    pub open spec fn spec_from_code(value: u8) -> TxInterruptFlagCode {
        if value == 0x40 {
            TxInterruptFlagCode::NoInterrupt
        } else if value == 0 {
            TxInterruptFlagCode::TxqInterrupt
        } else if value <= 0x1F {
            TxInterruptFlagCode::FifoInterrupt(fifo_of_code(value))
        } else {
            TxInterruptFlagCode::Reserved
        }
    }

    /// Decodes a 7-bit transmit interrupt code.
    pub fn from_code(value: u8) -> (r: TxInterruptFlagCode)
        requires
            value < 0x80,
        ensures
            r == Self::spec_from_code(value),
    {
        if value == 0x40 {
            TxInterruptFlagCode::NoInterrupt
        } else if value == 0 {
            TxInterruptFlagCode::TxqInterrupt
        } else if value <= 0x1F {
            TxInterruptFlagCode::FifoInterrupt(fifo_for_code(value))
        } else {
            TxInterruptFlagCode::Reserved
        }
    }
}

/// The highest-priority pending interrupt of the controller.
#[derive(Debug, Clone, Copy, PartialEq, Eq, Structural)]
pub enum InterruptFlagCode {
    NoInterrupt,
    TransmitAttemptInterrupt,
    TransmitEventFifoInterrupt,
    InvalidMessageOccurred,
    OperationModeChangeOccurred,
    TbcOverflow,
    RxTxMabOverOrUnderflow,
    AddressErrorInterrupt,
    ReceiveFifoOverflowInterrupt,
    WakeUpInterrupt,
    ErrorInterrupt,
    FifoInterrupt(FifoNumber),
    TxqInterrupt,
    Reserved,
}

impl InterruptFlagCode {
    pub open spec fn spec_from_code(value: u8) -> InterruptFlagCode {
        if value == 0x40 {
            InterruptFlagCode::NoInterrupt
        } else if value == 0 {
            InterruptFlagCode::TxqInterrupt
        } else if value <= 0x1F {
            InterruptFlagCode::FifoInterrupt(fifo_of_code(value))
        } else if value == 0x41 {
            InterruptFlagCode::ErrorInterrupt
        } else if value == 0x42 {
            InterruptFlagCode::WakeUpInterrupt
        } else if value == 0x43 {
            InterruptFlagCode::ReceiveFifoOverflowInterrupt
        } else if value == 0x44 {
            InterruptFlagCode::AddressErrorInterrupt
        } else if value == 0x45 {
            InterruptFlagCode::RxTxMabOverOrUnderflow
        } else if value == 0x46 {
            InterruptFlagCode::TbcOverflow
        } else if value == 0x47 {
            InterruptFlagCode::OperationModeChangeOccurred
        } else if value == 0x48 {
            InterruptFlagCode::InvalidMessageOccurred
        } else if value == 0x49 {
            InterruptFlagCode::TransmitEventFifoInterrupt
        } else if value == 0x4A {
            InterruptFlagCode::TransmitAttemptInterrupt
        } else {
            InterruptFlagCode::Reserved
        }
    }

    /// Decodes a 7-bit interrupt code.
    pub fn from_code(value: u8) -> (r: InterruptFlagCode)
        requires
            value < 0x80,
        ensures
            r == Self::spec_from_code(value),
    {
        match value {
            0x40 => InterruptFlagCode::NoInterrupt,
            0 => InterruptFlagCode::TxqInterrupt,
            1..=0x1F => InterruptFlagCode::FifoInterrupt(fifo_for_code(value)),
            0x41 => InterruptFlagCode::ErrorInterrupt,
            0x42 => InterruptFlagCode::WakeUpInterrupt,
            0x43 => InterruptFlagCode::ReceiveFifoOverflowInterrupt,
            0x44 => InterruptFlagCode::AddressErrorInterrupt,
            0x45 => InterruptFlagCode::RxTxMabOverOrUnderflow,
            0x46 => InterruptFlagCode::TbcOverflow,
            0x47 => InterruptFlagCode::OperationModeChangeOccurred,
            0x48 => InterruptFlagCode::InvalidMessageOccurred,
            0x49 => InterruptFlagCode::TransmitEventFifoInterrupt,
            0x4A => InterruptFlagCode::TransmitAttemptInterrupt,
            _ => InterruptFlagCode::Reserved,
        }
    }
}

#[derive(Clone, Copy, Debug, PartialEq, Eq, Structural)]
pub struct InterruptCodeRegister(pub u32);

impl InterruptCodeRegister {
}

impl RegisterValue for InterruptCodeRegister {
    open spec fn word(&self) -> u32 {
        self.0
    }

    fn from_word(word: u32) -> (r: Self) {
        InterruptCodeRegister(word)
    }

    fn to_word(&self) -> (r: u32) {
        self.0
    }
}

impl Register for InterruptCodeRegister {
    open spec fn spec_address() -> SFRAddress {
        SFRAddress::C1VEC
    }

    fn get_address() -> (r: SFRAddress) {
        SFRAddress::C1VEC
    }
}

#[derive(Clone, Copy, Debug, PartialEq, Eq, Structural)]
pub struct InterruptRegister(pub u32);

impl InterruptRegister {
    pub fn txif(&self) -> (r: bool)
        ensures
            r == flag(self.0, 0),
    {
        get_flag(self.0, 0)
    }

    pub fn rxif(&self) -> (r: bool)
        ensures
            r == flag(self.0, 1),
    {
        get_flag(self.0, 1)
    }

    pub fn tefif(&self) -> (r: bool)
        ensures
            r == flag(self.0, 4),
    {
        get_flag(self.0, 4)
    }

    pub fn eccif(&self) -> (r: bool)
        ensures
            r == flag(self.0, 8),
    {
        get_flag(self.0, 8)
    }

    pub fn spicrcif(&self) -> (r: bool)
        ensures
            r == flag(self.0, 9),
    {
        get_flag(self.0, 9)
    }

    pub fn txatif(&self) -> (r: bool)
        ensures
            r == flag(self.0, 10),
    {
        get_flag(self.0, 10)
    }

    pub fn rxovif(&self) -> (r: bool)
        ensures
            r == flag(self.0, 11),
    {
        get_flag(self.0, 11)
    }

    pub fn txie(&self) -> (r: bool)
        ensures
            r == flag(self.0, 16),
    {
        get_flag(self.0, 16)
    }

    pub fn set_txie(&mut self, value: bool)
        ensures
            final(self).0 == with_flag(old(self).0, 16, value),
    {
        self.0 = put_flag(self.0, 16, value);
    }

    pub fn rxie(&self) -> (r: bool)
        ensures
            r == flag(self.0, 17),
    {
        get_flag(self.0, 17)
    }

    pub fn set_rxie(&mut self, value: bool)
        ensures
            final(self).0 == with_flag(old(self).0, 17, value),
    {
        self.0 = put_flag(self.0, 17, value);
    }

    pub fn tbcie(&self) -> (r: bool)
        ensures
            r == flag(self.0, 18),
    {
        get_flag(self.0, 18)
    }

    pub fn set_tbcie(&mut self, value: bool)
        ensures
            final(self).0 == with_flag(old(self).0, 18, value),
    {
        self.0 = put_flag(self.0, 18, value);
    }

    pub fn modie(&self) -> (r: bool)
        ensures
            r == flag(self.0, 19),
    {
        get_flag(self.0, 19)
    }

    pub fn set_modie(&mut self, value: bool)
        ensures
            final(self).0 == with_flag(old(self).0, 19, value),
    {
        self.0 = put_flag(self.0, 19, value);
    }

    pub fn tefie(&self) -> (r: bool)
        ensures
            r == flag(self.0, 20),
    {
        get_flag(self.0, 20)
    }

    pub fn set_tefie(&mut self, value: bool)
        ensures
            final(self).0 == with_flag(old(self).0, 20, value),
    {
        self.0 = put_flag(self.0, 20, value);
    }

    pub fn eccie(&self) -> (r: bool)
        ensures
            r == flag(self.0, 24),
    {
        get_flag(self.0, 24)
    }

    pub fn set_eccie(&mut self, value: bool)
        ensures
            final(self).0 == with_flag(old(self).0, 24, value),
    {
        self.0 = put_flag(self.0, 24, value);
    }

    pub fn spicrcie(&self) -> (r: bool)
        ensures
            r == flag(self.0, 25),
    {
        get_flag(self.0, 25)
    }

    pub fn set_spicrcie(&mut self, value: bool)
        ensures
            final(self).0 == with_flag(old(self).0, 25, value),
    {
        self.0 = put_flag(self.0, 25, value);
    }

    pub fn txatie(&self) -> (r: bool)
        ensures
            r == flag(self.0, 26),
    {
        get_flag(self.0, 26)
    }

    pub fn set_txatie(&mut self, value: bool)
        ensures
            final(self).0 == with_flag(old(self).0, 26, value),
    {
        self.0 = put_flag(self.0, 26, value);
    }

    pub fn rxovie(&self) -> (r: bool)
        ensures
            r == flag(self.0, 27),
    {
        get_flag(self.0, 27)
    }

    pub fn set_rxovie(&mut self, value: bool)
        ensures
            final(self).0 == with_flag(old(self).0, 27, value),
    {
        self.0 = put_flag(self.0, 27, value);
    }

    pub fn serrie(&self) -> (r: bool)
        ensures
            r == flag(self.0, 28),
    {
        get_flag(self.0, 28)
    }

    pub fn set_serrie(&mut self, value: bool)
        ensures
            final(self).0 == with_flag(old(self).0, 28, value),
    {
        self.0 = put_flag(self.0, 28, value);
    }

    pub fn cerrie(&self) -> (r: bool)
        ensures
            r == flag(self.0, 29),
    {
        get_flag(self.0, 29)
    }

    pub fn set_cerrie(&mut self, value: bool)
        ensures
            final(self).0 == with_flag(old(self).0, 29, value),
    {
        self.0 = put_flag(self.0, 29, value);
    }

    pub fn wakie(&self) -> (r: bool)
        ensures
            r == flag(self.0, 30),
    {
        get_flag(self.0, 30)
    }

    pub fn set_wakie(&mut self, value: bool)
        ensures
            final(self).0 == with_flag(old(self).0, 30, value),
    {
        self.0 = put_flag(self.0, 30, value);
    }

    pub fn ivmie(&self) -> (r: bool)
        ensures
            r == flag(self.0, 31),
    {
        get_flag(self.0, 31)
    }

    pub fn set_ivmie(&mut self, value: bool)
        ensures
            final(self).0 == with_flag(old(self).0, 31, value),
    {
        self.0 = put_flag(self.0, 31, value);
    }

    pub fn tbcif(&self) -> (r: bool)
        ensures
            r == flag(self.0, 2),
    {
        get_flag(self.0, 2)
    }

    pub fn clear_tbcif(&mut self)
        ensures
            final(self).0 == with_flag(old(self).0, 2, false),
    {
        self.0 = put_flag(self.0, 2, false);
    }

    pub fn modif(&self) -> (r: bool)
        ensures
            r == flag(self.0, 3),
    {
        get_flag(self.0, 3)
    }

    pub fn clear_modif(&mut self)
        ensures
            final(self).0 == with_flag(old(self).0, 3, false),
    {
        self.0 = put_flag(self.0, 3, false);
    }

    pub fn serrif(&self) -> (r: bool)
        ensures
            r == flag(self.0, 12),
    {
        get_flag(self.0, 12)
    }

    pub fn clear_serrif(&mut self)
        ensures
            final(self).0 == with_flag(old(self).0, 12, false),
    {
        self.0 = put_flag(self.0, 12, false);
    }

    pub fn cerrif(&self) -> (r: bool)
        ensures
            r == flag(self.0, 13),
    {
        get_flag(self.0, 13)
    }

    pub fn clear_cerrif(&mut self)
        ensures
            final(self).0 == with_flag(old(self).0, 13, false),
    {
        self.0 = put_flag(self.0, 13, false);
    }

    pub fn wakif(&self) -> (r: bool)
        ensures
            r == flag(self.0, 14),
    {
        get_flag(self.0, 14)
    }

    pub fn clear_wakif(&mut self)
        ensures
            final(self).0 == with_flag(old(self).0, 14, false),
    {
        self.0 = put_flag(self.0, 14, false);
    }

    pub fn ivmif(&self) -> (r: bool)
        ensures
            r == flag(self.0, 15),
    {
        get_flag(self.0, 15)
    }

    pub fn clear_ivmif(&mut self)
        ensures
            final(self).0 == with_flag(old(self).0, 15, false),
    {
        self.0 = put_flag(self.0, 15, false);
    }
}

impl RegisterValue for InterruptRegister {
    open spec fn word(&self) -> u32 {
        self.0
    }

    fn from_word(word: u32) -> (r: Self) {
        InterruptRegister(word)
    }

    fn to_word(&self) -> (r: u32) {
        self.0
    }
}

impl Register for InterruptRegister {
    open spec fn spec_address() -> SFRAddress {
        SFRAddress::C1INT
    }

    fn get_address() -> (r: SFRAddress) {
        SFRAddress::C1INT
    }
}

#[derive(Clone, Copy, Debug, PartialEq, Eq, Structural)]
pub struct RxInterruptStatusRegister(pub u32);

impl RxInterruptStatusRegister {
    pub fn rfif1(&self) -> (r: bool)
        ensures
            r == flag(self.0, 1),
    {
        get_flag(self.0, 1)
    }

    pub fn rfif2(&self) -> (r: bool)
        ensures
            r == flag(self.0, 2),
    {
        get_flag(self.0, 2)
    }

    pub fn rfif3(&self) -> (r: bool)
        ensures
            r == flag(self.0, 3),
    {
        get_flag(self.0, 3)
    }

    pub fn rfif4(&self) -> (r: bool)
        ensures
            r == flag(self.0, 4),
    {
        get_flag(self.0, 4)
    }

    pub fn rfif5(&self) -> (r: bool)
        ensures
            r == flag(self.0, 5),
    {
        get_flag(self.0, 5)
    }

    pub fn rfif6(&self) -> (r: bool)
        ensures
            r == flag(self.0, 6),
    {
        get_flag(self.0, 6)
    }

    pub fn rfif7(&self) -> (r: bool)
        ensures
            r == flag(self.0, 7),
    {
        get_flag(self.0, 7)
    }

    pub fn rfif8(&self) -> (r: bool)
        ensures
            r == flag(self.0, 8),
    {
        get_flag(self.0, 8)
    }

    pub fn rfif9(&self) -> (r: bool)
        ensures
            r == flag(self.0, 9),
    {
        get_flag(self.0, 9)
    }

    pub fn rfif10(&self) -> (r: bool)
        ensures
            r == flag(self.0, 10),
    {
        get_flag(self.0, 10)
    }

    pub fn rfif11(&self) -> (r: bool)
        ensures
            r == flag(self.0, 11),
    {
        get_flag(self.0, 11)
    }

    pub fn rfif12(&self) -> (r: bool)
        ensures
            r == flag(self.0, 12),
    {
        get_flag(self.0, 12)
    }

    pub fn rfif13(&self) -> (r: bool)
        ensures
            r == flag(self.0, 13),
    {
        get_flag(self.0, 13)
    }

    pub fn rfif14(&self) -> (r: bool)
        ensures
            r == flag(self.0, 14),
    {
        get_flag(self.0, 14)
    }

    pub fn rfif15(&self) -> (r: bool)
        ensures
            r == flag(self.0, 15),
    {
        get_flag(self.0, 15)
    }

    pub fn rfif16(&self) -> (r: bool)
        ensures
            r == flag(self.0, 16),
    {
        get_flag(self.0, 16)
    }

    pub fn rfif17(&self) -> (r: bool)
        ensures
            r == flag(self.0, 17),
    {
        get_flag(self.0, 17)
    }

    pub fn rfif18(&self) -> (r: bool)
        ensures
            r == flag(self.0, 18),
    {
        get_flag(self.0, 18)
    }

    pub fn rfif19(&self) -> (r: bool)
        ensures
            r == flag(self.0, 19),
    {
        get_flag(self.0, 19)
    }

    pub fn rfif20(&self) -> (r: bool)
        ensures
            r == flag(self.0, 20),
    {
        get_flag(self.0, 20)
    }

    pub fn rfif21(&self) -> (r: bool)
        ensures
            r == flag(self.0, 21),
    {
        get_flag(self.0, 21)
    }

    pub fn rfif22(&self) -> (r: bool)
        ensures
            r == flag(self.0, 22),
    {
        get_flag(self.0, 22)
    }

    pub fn rfif23(&self) -> (r: bool)
        ensures
            r == flag(self.0, 23),
    {
        get_flag(self.0, 23)
    }

    pub fn rfif24(&self) -> (r: bool)
        ensures
            r == flag(self.0, 24),
    {
        get_flag(self.0, 24)
    }

    pub fn rfif25(&self) -> (r: bool)
        ensures
            r == flag(self.0, 25),
    {
        get_flag(self.0, 25)
    }

    pub fn rfif26(&self) -> (r: bool)
        ensures
            r == flag(self.0, 26),
    {
        get_flag(self.0, 26)
    }

    pub fn rfif27(&self) -> (r: bool)
        ensures
            r == flag(self.0, 27),
    {
        get_flag(self.0, 27)
    }

    pub fn rfif28(&self) -> (r: bool)
        ensures
            r == flag(self.0, 28),
    {
        get_flag(self.0, 28)
    }

    pub fn rfif29(&self) -> (r: bool)
        ensures
            r == flag(self.0, 29),
    {
        get_flag(self.0, 29)
    }

    pub fn rfif30(&self) -> (r: bool)
        ensures
            r == flag(self.0, 30),
    {
        get_flag(self.0, 30)
    }

    pub fn rfif31(&self) -> (r: bool)
        ensures
            r == flag(self.0, 31),
    {
        get_flag(self.0, 31)
    }
}

impl RegisterValue for RxInterruptStatusRegister {
    open spec fn word(&self) -> u32 {
        self.0
    }

    fn from_word(word: u32) -> (r: Self) {
        RxInterruptStatusRegister(word)
    }

    fn to_word(&self) -> (r: u32) {
        self.0
    }
}

impl Register for RxInterruptStatusRegister {
    open spec fn spec_address() -> SFRAddress {
        SFRAddress::C1RXIF
    }

    fn get_address() -> (r: SFRAddress) {
        SFRAddress::C1RXIF
    }
}

#[derive(Clone, Copy, Debug, PartialEq, Eq, Structural)]
pub struct RxOverflowInterruptStatusRegister(pub u32);

impl RxOverflowInterruptStatusRegister {
    pub fn rfovif1(&self) -> (r: bool)
        ensures
            r == flag(self.0, 1),
    {
        get_flag(self.0, 1)
    }

    pub fn rfovif2(&self) -> (r: bool)
        ensures
            r == flag(self.0, 2),
    {
        get_flag(self.0, 2)
    }

    pub fn rfovif3(&self) -> (r: bool)
        ensures
            r == flag(self.0, 3),
    {
        get_flag(self.0, 3)
    }

    pub fn rfovif4(&self) -> (r: bool)
        ensures
            r == flag(self.0, 4),
    {
        get_flag(self.0, 4)
    }

    pub fn rfovif5(&self) -> (r: bool)
        ensures
            r == flag(self.0, 5),
    {
        get_flag(self.0, 5)
    }

    pub fn rfovif6(&self) -> (r: bool)
        ensures
            r == flag(self.0, 6),
    {
        get_flag(self.0, 6)
    }

    pub fn rfovif7(&self) -> (r: bool)
        ensures
            r == flag(self.0, 7),
    {
        get_flag(self.0, 7)
    }

    pub fn rfovif8(&self) -> (r: bool)
        ensures
            r == flag(self.0, 8),
    {
        get_flag(self.0, 8)
    }

    pub fn rfovif9(&self) -> (r: bool)
        ensures
            r == flag(self.0, 9),
    {
        get_flag(self.0, 9)
    }

    pub fn rfovif10(&self) -> (r: bool)
        ensures
            r == flag(self.0, 10),
    {
        get_flag(self.0, 10)
    }

    pub fn rfovif11(&self) -> (r: bool)
        ensures
            r == flag(self.0, 11),
    {
        get_flag(self.0, 11)
    }

    pub fn rfovif12(&self) -> (r: bool)
        ensures
            r == flag(self.0, 12),
    {
        get_flag(self.0, 12)
    }

    pub fn rfovif13(&self) -> (r: bool)
        ensures
            r == flag(self.0, 13),
    {
        get_flag(self.0, 13)
    }

    pub fn rfovif14(&self) -> (r: bool)
        ensures
            r == flag(self.0, 14),
    {
        get_flag(self.0, 14)
    }

    pub fn rfovif15(&self) -> (r: bool)
        ensures
            r == flag(self.0, 15),
    {
        get_flag(self.0, 15)
    }

    pub fn rfovif16(&self) -> (r: bool)
        ensures
            r == flag(self.0, 16),
    {
        get_flag(self.0, 16)
    }

    pub fn rfovif17(&self) -> (r: bool)
        ensures
            r == flag(self.0, 17),
    {
        get_flag(self.0, 17)
    }

    pub fn rfovif18(&self) -> (r: bool)
        ensures
            r == flag(self.0, 18),
    {
        get_flag(self.0, 18)
    }

    pub fn rfovif19(&self) -> (r: bool)
        ensures
            r == flag(self.0, 19),
    {
        get_flag(self.0, 19)
    }

    pub fn rfovif20(&self) -> (r: bool)
        ensures
            r == flag(self.0, 20),
    {
        get_flag(self.0, 20)
    }

    pub fn rfovif21(&self) -> (r: bool)
        ensures
            r == flag(self.0, 21),
    {
        get_flag(self.0, 21)
    }

    pub fn rfovif22(&self) -> (r: bool)
        ensures
            r == flag(self.0, 22),
    {
        get_flag(self.0, 22)
    }

    pub fn rfovif23(&self) -> (r: bool)
        ensures
            r == flag(self.0, 23),
    {
        get_flag(self.0, 23)
    }

    pub fn rfovif24(&self) -> (r: bool)
        ensures
            r == flag(self.0, 24),
    {
        get_flag(self.0, 24)
    }

    pub fn rfovif25(&self) -> (r: bool)
        ensures
            r == flag(self.0, 25),
    {
        get_flag(self.0, 25)
    }

    pub fn rfovif26(&self) -> (r: bool)
        ensures
            r == flag(self.0, 26),
    {
        get_flag(self.0, 26)
    }

    pub fn rfovif27(&self) -> (r: bool)
        ensures
            r == flag(self.0, 27),
    {
        get_flag(self.0, 27)
    }

    pub fn rfovif28(&self) -> (r: bool)
        ensures
            r == flag(self.0, 28),
    {
        get_flag(self.0, 28)
    }

    pub fn rfovif29(&self) -> (r: bool)
        ensures
            r == flag(self.0, 29),
    {
        get_flag(self.0, 29)
    }

    pub fn rfovif30(&self) -> (r: bool)
        ensures
            r == flag(self.0, 30),
    {
        get_flag(self.0, 30)
    }

    pub fn rfovif31(&self) -> (r: bool)
        ensures
            r == flag(self.0, 31),
    {
        get_flag(self.0, 31)
    }
}

impl RegisterValue for RxOverflowInterruptStatusRegister {
    open spec fn word(&self) -> u32 {
        self.0
    }

    fn from_word(word: u32) -> (r: Self) {
        RxOverflowInterruptStatusRegister(word)
    }

    fn to_word(&self) -> (r: u32) {
        self.0
    }
}

impl Register for RxOverflowInterruptStatusRegister {
    open spec fn spec_address() -> SFRAddress {
        SFRAddress::C1RXOVIF
    }

    fn get_address() -> (r: SFRAddress) {
        SFRAddress::C1RXOVIF
    }
}

#[derive(Clone, Copy, Debug, PartialEq, Eq, Structural)]
pub struct TxInterruptStatusRegister(pub u32);

impl TxInterruptStatusRegister {
    pub fn tfif_txq(&self) -> (r: bool)
        ensures
            r == flag(self.0, 0),
    {
        get_flag(self.0, 0)
    }

    pub fn tfif1(&self) -> (r: bool)
        ensures
            r == flag(self.0, 1),
    {
        get_flag(self.0, 1)
    }

    pub fn tfif2(&self) -> (r: bool)
        ensures
            r == flag(self.0, 2),
    {
        get_flag(self.0, 2)
    }

    pub fn tfif3(&self) -> (r: bool)
        ensures
            r == flag(self.0, 3),
    {
        get_flag(self.0, 3)
    }

    pub fn tfif4(&self) -> (r: bool)
        ensures
            r == flag(self.0, 4),
    {
        get_flag(self.0, 4)
    }

    pub fn tfif5(&self) -> (r: bool)
        ensures
            r == flag(self.0, 5),
    {
        get_flag(self.0, 5)
    }

    pub fn tfif6(&self) -> (r: bool)
        ensures
            r == flag(self.0, 6),
    {
        get_flag(self.0, 6)
    }

    pub fn tfif7(&self) -> (r: bool)
        ensures
            r == flag(self.0, 7),
    {
        get_flag(self.0, 7)
    }

    pub fn tfif8(&self) -> (r: bool)
        ensures
            r == flag(self.0, 8),
    {
        get_flag(self.0, 8)
    }

    pub fn tfif9(&self) -> (r: bool)
        ensures
            r == flag(self.0, 9),
    {
        get_flag(self.0, 9)
    }

    pub fn tfif10(&self) -> (r: bool)
        ensures
            r == flag(self.0, 10),
    {
        get_flag(self.0, 10)
    }

    pub fn tfif11(&self) -> (r: bool)
        ensures
            r == flag(self.0, 11),
    {
        get_flag(self.0, 11)
    }

    pub fn tfif12(&self) -> (r: bool)
        ensures
            r == flag(self.0, 12),
    {
        get_flag(self.0, 12)
    }

    pub fn tfif13(&self) -> (r: bool)
        ensures
            r == flag(self.0, 13),
    {
        get_flag(self.0, 13)
    }

    pub fn tfif14(&self) -> (r: bool)
        ensures
            r == flag(self.0, 14),
    {
        get_flag(self.0, 14)
    }

    pub fn tfif15(&self) -> (r: bool)
        ensures
            r == flag(self.0, 15),
    {
        get_flag(self.0, 15)
    }

    pub fn tfif16(&self) -> (r: bool)
        ensures
            r == flag(self.0, 16),
    {
        get_flag(self.0, 16)
    }

    pub fn tfif17(&self) -> (r: bool)
        ensures
            r == flag(self.0, 17),
    {
        get_flag(self.0, 17)
    }

    pub fn tfif18(&self) -> (r: bool)
        ensures
            r == flag(self.0, 18),
    {
        get_flag(self.0, 18)
    }

    pub fn tfif19(&self) -> (r: bool)
        ensures
            r == flag(self.0, 19),
    {
        get_flag(self.0, 19)
    }

    pub fn tfif20(&self) -> (r: bool)
        ensures
            r == flag(self.0, 20),
    {
        get_flag(self.0, 20)
    }

    pub fn tfif21(&self) -> (r: bool)
        ensures
            r == flag(self.0, 21),
    {
        get_flag(self.0, 21)
    }

    pub fn tfif22(&self) -> (r: bool)
        ensures
            r == flag(self.0, 22),
    {
        get_flag(self.0, 22)
    }

    pub fn tfif23(&self) -> (r: bool)
        ensures
            r == flag(self.0, 23),
    {
        get_flag(self.0, 23)
    }

    pub fn tfif24(&self) -> (r: bool)
        ensures
            r == flag(self.0, 24),
    {
        get_flag(self.0, 24)
    }

    pub fn tfif25(&self) -> (r: bool)
        ensures
            r == flag(self.0, 25),
    {
        get_flag(self.0, 25)
    }

    pub fn tfif26(&self) -> (r: bool)
        ensures
            r == flag(self.0, 26),
    {
        get_flag(self.0, 26)
    }

    pub fn tfif27(&self) -> (r: bool)
        ensures
            r == flag(self.0, 27),
    {
        get_flag(self.0, 27)
    }

    pub fn tfif28(&self) -> (r: bool)
        ensures
            r == flag(self.0, 28),
    {
        get_flag(self.0, 28)
    }

    pub fn tfif29(&self) -> (r: bool)
        ensures
            r == flag(self.0, 29),
    {
        get_flag(self.0, 29)
    }

    pub fn tfif30(&self) -> (r: bool)
        ensures
            r == flag(self.0, 30),
    {
        get_flag(self.0, 30)
    }

    pub fn tfif31(&self) -> (r: bool)
        ensures
            r == flag(self.0, 31),
    {
        get_flag(self.0, 31)
    }
}

impl RegisterValue for TxInterruptStatusRegister {
    open spec fn word(&self) -> u32 {
        self.0
    }

    fn from_word(word: u32) -> (r: Self) {
        TxInterruptStatusRegister(word)
    }

    fn to_word(&self) -> (r: u32) {
        self.0
    }
}

impl Register for TxInterruptStatusRegister {
    open spec fn spec_address() -> SFRAddress {
        SFRAddress::C1TXIF
    }

    fn get_address() -> (r: SFRAddress) {
        SFRAddress::C1TXIF
    }
}

#[derive(Clone, Copy, Debug, PartialEq, Eq, Structural)]
pub struct TxAttemptInterruptStatusRegister(pub u32);

impl TxAttemptInterruptStatusRegister {
    pub fn tfatif_txq(&self) -> (r: bool)
        ensures
            r == flag(self.0, 0),
    {
        get_flag(self.0, 0)
    }

    pub fn tfatif1(&self) -> (r: bool)
        ensures
            r == flag(self.0, 1),
    {
        get_flag(self.0, 1)
    }

    pub fn tfatif2(&self) -> (r: bool)
        ensures
            r == flag(self.0, 2),
    {
        get_flag(self.0, 2)
    }

    pub fn tfatif3(&self) -> (r: bool)
        ensures
            r == flag(self.0, 3),
    {
        get_flag(self.0, 3)
    }

    pub fn tfatif4(&self) -> (r: bool)
        ensures
            r == flag(self.0, 4),
    {
        get_flag(self.0, 4)
    }

    pub fn tfatif5(&self) -> (r: bool)
        ensures
            r == flag(self.0, 5),
    {
        get_flag(self.0, 5)
    }

    pub fn tfatif6(&self) -> (r: bool)
        ensures
            r == flag(self.0, 6),
    {
        get_flag(self.0, 6)
    }

    pub fn tfatif7(&self) -> (r: bool)
        ensures
            r == flag(self.0, 7),
    {
        get_flag(self.0, 7)
    }

    pub fn tfatif8(&self) -> (r: bool)
        ensures
            r == flag(self.0, 8),
    {
        get_flag(self.0, 8)
    }

    pub fn tfatif9(&self) -> (r: bool)
        ensures
            r == flag(self.0, 9),
    {
        get_flag(self.0, 9)
    }

    pub fn tfatif10(&self) -> (r: bool)
        ensures
            r == flag(self.0, 10),
    {
        get_flag(self.0, 10)
    }

    pub fn tfatif11(&self) -> (r: bool)
        ensures
            r == flag(self.0, 11),
    {
        get_flag(self.0, 11)
    }

    pub fn tfatif12(&self) -> (r: bool)
        ensures
            r == flag(self.0, 12),
    {
        get_flag(self.0, 12)
    }

    pub fn tfatif13(&self) -> (r: bool)
        ensures
            r == flag(self.0, 13),
    {
        get_flag(self.0, 13)
    }

    pub fn tfatif14(&self) -> (r: bool)
        ensures
            r == flag(self.0, 14),
    {
        get_flag(self.0, 14)
    }

    pub fn tfatif15(&self) -> (r: bool)
        ensures
            r == flag(self.0, 15),
    {
        get_flag(self.0, 15)
    }

    pub fn tfatif16(&self) -> (r: bool)
        ensures
            r == flag(self.0, 16),
    {
        get_flag(self.0, 16)
    }

    pub fn tfatif17(&self) -> (r: bool)
        ensures
            r == flag(self.0, 17),
    {
        get_flag(self.0, 17)
    }

    pub fn tfatif18(&self) -> (r: bool)
        ensures
            r == flag(self.0, 18),
    {
        get_flag(self.0, 18)
    }

    pub fn tfatif19(&self) -> (r: bool)
        ensures
            r == flag(self.0, 19),
    {
        get_flag(self.0, 19)
    }

    pub fn tfatif20(&self) -> (r: bool)
        ensures
            r == flag(self.0, 20),
    {
        get_flag(self.0, 20)
    }

    pub fn tfatif21(&self) -> (r: bool)
        ensures
            r == flag(self.0, 21),
    {
        get_flag(self.0, 21)
    }

    pub fn tfatif22(&self) -> (r: bool)
        ensures
            r == flag(self.0, 22),
    {
        get_flag(self.0, 22)
    }

    pub fn tfatif23(&self) -> (r: bool)
        ensures
            r == flag(self.0, 23),
    {
        get_flag(self.0, 23)
    }

    pub fn tfatif24(&self) -> (r: bool)
        ensures
            r == flag(self.0, 24),
    {
        get_flag(self.0, 24)
    }

    pub fn tfatif25(&self) -> (r: bool)
        ensures
            r == flag(self.0, 25),
    {
        get_flag(self.0, 25)
    }

    pub fn tfatif26(&self) -> (r: bool)
        ensures
            r == flag(self.0, 26),
    {
        get_flag(self.0, 26)
    }

    pub fn tfatif27(&self) -> (r: bool)
        ensures
            r == flag(self.0, 27),
    {
        get_flag(self.0, 27)
    }

    pub fn tfatif28(&self) -> (r: bool)
        ensures
            r == flag(self.0, 28),
    {
        get_flag(self.0, 28)
    }

    pub fn tfatif29(&self) -> (r: bool)
        ensures
            r == flag(self.0, 29),
    {
        get_flag(self.0, 29)
    }

    pub fn tfatif30(&self) -> (r: bool)
        ensures
            r == flag(self.0, 30),
    {
        get_flag(self.0, 30)
    }

    pub fn tfatif31(&self) -> (r: bool)
        ensures
            r == flag(self.0, 31),
    {
        get_flag(self.0, 31)
    }
}

impl RegisterValue for TxAttemptInterruptStatusRegister {
    open spec fn word(&self) -> u32 {
        self.0
    }

    fn from_word(word: u32) -> (r: Self) {
        TxAttemptInterruptStatusRegister(word)
    }

    fn to_word(&self) -> (r: u32) {
        self.0
    }
}

impl Register for TxAttemptInterruptStatusRegister {
    open spec fn spec_address() -> SFRAddress {
        SFRAddress::C1TXATIF
    }

    fn get_address() -> (r: SFRAddress) {
        SFRAddress::C1TXATIF
    }
}
impl InterruptCodeRegister {
    /// The generic interrupt code (ICODE, bits 0 to 6): which interrupt
    /// drives the interrupt pin.
    pub fn generic_code(&self) -> (r: InterruptFlagCode)
        ensures
            r == InterruptFlagCode::spec_from_code(field(self.0, 0, 7) as u8),
    {
        proof {
            crate::bits::lemma_low_mask_values();
            crate::bits::lemma_field_bound(self.0, 0, 7);
        }
        InterruptFlagCode::from_code(get_field(self.0, 0, 7) as u8)
    }

    /// The filter that matched the received frame (FILHIT, bits 8 to 12).
    pub fn filter_hit(&self) -> (r: FilterNumber)
        ensures
            r.spec_value() == field(self.0, 8, 5),
    {
        proof {
            crate::bits::lemma_low_mask_values();
            crate::bits::lemma_field_bound(self.0, 8, 5);
        }
        match FilterNumber::try_from_value(get_field(self.0, 8, 5) as u8) {
            Some(f) => f,
            None => FilterNumber::Filter0,
        }
    }

    /// The transmit interrupt code (TXCODE, bits 16 to 22).
    pub fn tx_code(&self) -> (r: TxInterruptFlagCode)
        ensures
            r == TxInterruptFlagCode::spec_from_code(field(self.0, 16, 7) as u8),
    {
        proof {
            crate::bits::lemma_low_mask_values();
            crate::bits::lemma_field_bound(self.0, 16, 7);
        }
        TxInterruptFlagCode::from_code(get_field(self.0, 16, 7) as u8)
    }

    /// The receive interrupt code (RXCODE, bits 24 to 30).
    pub fn rx_code(&self) -> (r: RxInterruptFlagCode)
        ensures
            r == RxInterruptFlagCode::spec_from_code(field(self.0, 24, 7) as u8),
    {
        proof {
            crate::bits::lemma_low_mask_values();
            crate::bits::lemma_field_bound(self.0, 24, 7);
        }
        RxInterruptFlagCode::from_code(get_field(self.0, 24, 7) as u8)
    }
}

impl RxInterruptStatusRegister {
    /// The flag of FIFO `fifo_number` (bit `fifo_number`).
    pub fn get_interrupt(&self, fifo_number: FifoNumber) -> (r: bool)
        ensures
            r == flag(self.0, fifo_number.spec_value() as u32),
    {
        get_flag(self.0, fifo_number.value() as u32)
    }
}

impl RxOverflowInterruptStatusRegister {
    /// The flag of FIFO `fifo_number` (bit `fifo_number`).
    pub fn get_interrupt(&self, fifo_number: FifoNumber) -> (r: bool)
        ensures
            r == flag(self.0, fifo_number.spec_value() as u32),
    {
        get_flag(self.0, fifo_number.value() as u32)
    }
}

impl TxInterruptStatusRegister {
    /// The transmit queue's flag (bit 0).
    pub fn get_tx_queue_interrupt(&self) -> (r: bool)
        ensures
            r == flag(self.0, 0),
    {
        get_flag(self.0, 0)
    }

    /// The flag of FIFO `fifo_number` (bit `fifo_number`).
    pub fn get_tx_fifo_interrupt(&self, fifo_number: FifoNumber) -> (r: bool)
        ensures
            r == flag(self.0, fifo_number.spec_value() as u32),
    {
        get_flag(self.0, fifo_number.value() as u32)
    }
}

impl TxAttemptInterruptStatusRegister {
    /// The transmit queue's flag (bit 0).
    pub fn get_tx_queue_interrupt(&self) -> (r: bool)
        ensures
            r == flag(self.0, 0),
    {
        get_flag(self.0, 0)
    }

    /// The flag of FIFO `fifo_number` (bit `fifo_number`).
    pub fn get_tx_fifo_interrupt(&self, fifo_number: FifoNumber) -> (r: bool)
        ensures
            r == flag(self.0, fifo_number.spec_value() as u32),
    {
        get_flag(self.0, fifo_number.value() as u32)
    }
}

} // verus!
