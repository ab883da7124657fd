//! FIFO registers: control, status and user address of the transmit event
//! FIFO, the transmit queue and the 31 general FIFOs.
use vstd::prelude::*;

use crate::bits::{field, flag, get_field, get_flag, put_field, put_flag, with_field, with_flag};
use crate::memory::{Register, RegisterValue, RepeatedRegister, SFRAddress, RAM_BASE_ADDRESS};

verus! {

pub const HIGHEST_FIFO_PRIORITY: u8 = 0b0001_1111;

pub const LOWEST_FIFO_PRIORITY: u8 = 0;

/// One of the 31 general purpose FIFOs.
#[derive(Clone, Copy, Debug, PartialEq, Eq, Structural)]
pub enum FifoNumber {
    Fifo1,
    Fifo2,
    Fifo3,
    Fifo4,
    Fifo5,
    Fifo6,
    Fifo7,
    Fifo8,
    Fifo9,
    Fifo10,
    Fifo11,
    Fifo12,
    Fifo13,
    Fifo14,
    Fifo15,
    Fifo16,
    Fifo17,
    Fifo18,
    Fifo19,
    Fifo20,
    Fifo21,
    Fifo22,
    Fifo23,
    Fifo24,
    Fifo25,
    Fifo26,
    Fifo27,
    Fifo28,
    Fifo29,
    Fifo30,
    Fifo31,
}

impl FifoNumber {
    /// The value that encodes this variant in its register field.
    pub open spec fn spec_value(self) -> u8 {
        match self {
            FifoNumber::Fifo1 => 1,
            FifoNumber::Fifo2 => 2,
            FifoNumber::Fifo3 => 3,
            FifoNumber::Fifo4 => 4,
            FifoNumber::Fifo5 => 5,
            FifoNumber::Fifo6 => 6,
            FifoNumber::Fifo7 => 7,
            FifoNumber::Fifo8 => 8,
            FifoNumber::Fifo9 => 9,
            FifoNumber::Fifo10 => 10,
            FifoNumber::Fifo11 => 11,
            FifoNumber::Fifo12 => 12,
            FifoNumber::Fifo13 => 13,
            FifoNumber::Fifo14 => 14,
            FifoNumber::Fifo15 => 15,
            FifoNumber::Fifo16 => 16,
            FifoNumber::Fifo17 => 17,
            FifoNumber::Fifo18 => 18,
            FifoNumber::Fifo19 => 19,
            FifoNumber::Fifo20 => 20,
            FifoNumber::Fifo21 => 21,
            FifoNumber::Fifo22 => 22,
            FifoNumber::Fifo23 => 23,
            FifoNumber::Fifo24 => 24,
            FifoNumber::Fifo25 => 25,
            FifoNumber::Fifo26 => 26,
            FifoNumber::Fifo27 => 27,
            FifoNumber::Fifo28 => 28,
            FifoNumber::Fifo29 => 29,
            FifoNumber::Fifo30 => 30,
            FifoNumber::Fifo31 => 31,
        }
    }

    pub fn value(self) -> (r: u8)
        ensures
            r == self.spec_value(),
    {
        match self {
            FifoNumber::Fifo1 => 1,
            FifoNumber::Fifo2 => 2,
            FifoNumber::Fifo3 => 3,
            FifoNumber::Fifo4 => 4,
            FifoNumber::Fifo5 => 5,
            FifoNumber::Fifo6 => 6,
            FifoNumber::Fifo7 => 7,
            FifoNumber::Fifo8 => 8,
            FifoNumber::Fifo9 => 9,
            FifoNumber::Fifo10 => 10,
            FifoNumber::Fifo11 => 11,
            FifoNumber::Fifo12 => 12,
            FifoNumber::Fifo13 => 13,
            FifoNumber::Fifo14 => 14,
            FifoNumber::Fifo15 => 15,
            FifoNumber::Fifo16 => 16,
            FifoNumber::Fifo17 => 17,
            FifoNumber::Fifo18 => 18,
            FifoNumber::Fifo19 => 19,
            FifoNumber::Fifo20 => 20,
            FifoNumber::Fifo21 => 21,
            FifoNumber::Fifo22 => 22,
            FifoNumber::Fifo23 => 23,
            FifoNumber::Fifo24 => 24,
            FifoNumber::Fifo25 => 25,
            FifoNumber::Fifo26 => 26,
            FifoNumber::Fifo27 => 27,
            FifoNumber::Fifo28 => 28,
            FifoNumber::Fifo29 => 29,
            FifoNumber::Fifo30 => 30,
            FifoNumber::Fifo31 => 31,
        }
    }

    /// The variant that the raw value `v` encodes, if any.
    pub open spec fn spec_from_value(v: u8) -> Option<FifoNumber> {
        if v == 1 {
            Some(FifoNumber::Fifo1)
        } else if v == 2 {
            Some(FifoNumber::Fifo2)
        } else if v == 3 {
            Some(FifoNumber::Fifo3)
        } else if v == 4 {
            Some(FifoNumber::Fifo4)
        } else if v == 5 {
            Some(FifoNumber::Fifo5)
        } else if v == 6 {
            Some(FifoNumber::Fifo6)
        } else if v == 7 {
            Some(FifoNumber::Fifo7)
        } else if v == 8 {
            Some(FifoNumber::Fifo8)
        } else if v == 9 {
            Some(FifoNumber::Fifo9)
        } else if v == 10 {
            Some(FifoNumber::Fifo10)
        } else if v == 11 {
            Some(FifoNumber::Fifo11)
        } else if v == 12 {
            Some(FifoNumber::Fifo12)
        } else if v == 13 {
            Some(FifoNumber::Fifo13)
        } else if v == 14 {
            Some(FifoNumber::Fifo14)
        } else if v == 15 {
            Some(FifoNumber::Fifo15)
        } else if v == 16 {
            Some(FifoNumber::Fifo16)
        } else if v == 17 {
            Some(FifoNumber::Fifo17)
        } else if v == 18 {
            Some(FifoNumber::Fifo18)
        } else if v == 19 {
            Some(FifoNumber::Fifo19)
        } else if v == 20 {
            Some(FifoNumber::Fifo20)
        } else if v == 21 {
            Some(FifoNumber::Fifo21)
        } else if v == 22 {
            Some(FifoNumber::Fifo22)
        } else if v == 23 {
            Some(FifoNumber::Fifo23)
        } else if v == 24 {
            Some(FifoNumber::Fifo24)
        } else if v == 25 {
            Some(FifoNumber::Fifo25)
        } else if v == 26 {
            Some(FifoNumber::Fifo26)
        } else if v == 27 {
            Some(FifoNumber::Fifo27)
        } else if v == 28 {
            Some(FifoNumber::Fifo28)
        } else if v == 29 {
            Some(FifoNumber::Fifo29)
        } else if v == 30 {
            Some(FifoNumber::Fifo30)
        } else if v == 31 {
            Some(FifoNumber::Fifo31)
        } else {
            None
        }
    }

    /// The variant that `v` encodes, if any.
    pub fn try_from_value(v: u8) -> (r: Option<FifoNumber>)
        ensures
            r == Self::spec_from_value(v),
            r matches Some(x) ==> x.spec_value() == v,
    {
        match v {
            1 => Some(FifoNumber::Fifo1),
            2 => Some(FifoNumber::Fifo2),
            3 => Some(FifoNumber::Fifo3),
            4 => Some(FifoNumber::Fifo4),
            5 => Some(FifoNumber::Fifo5),
            6 => Some(FifoNumber::Fifo6),
            7 => Some(FifoNumber::Fifo7),
            8 => Some(FifoNumber::Fifo8),
            9 => Some(FifoNumber::Fifo9),
            10 => Some(FifoNumber::Fifo10),
            11 => Some(FifoNumber::Fifo11),
            12 => Some(FifoNumber::Fifo12),
            13 => Some(FifoNumber::Fifo13),
            14 => Some(FifoNumber::Fifo14),
            15 => Some(FifoNumber::Fifo15),
            16 => Some(FifoNumber::Fifo16),
            17 => Some(FifoNumber::Fifo17),
            18 => Some(FifoNumber::Fifo18),
            19 => Some(FifoNumber::Fifo19),
            20 => Some(FifoNumber::Fifo20),
            21 => Some(FifoNumber::Fifo21),
            22 => Some(FifoNumber::Fifo22),
            23 => Some(FifoNumber::Fifo23),
            24 => Some(FifoNumber::Fifo24),
            25 => Some(FifoNumber::Fifo25),
            26 => Some(FifoNumber::Fifo26),
            27 => Some(FifoNumber::Fifo27),
            28 => Some(FifoNumber::Fifo28),
            29 => Some(FifoNumber::Fifo29),
            30 => Some(FifoNumber::Fifo30),
            31 => Some(FifoNumber::Fifo31),

            _ => None,
        }
    }
}

/// The queues that have a user address register.
#[derive(Debug, Clone, Copy, PartialEq, Eq, Structural)]
pub enum UserAddressKind {
    TxEventFifo,
    TxQueue,
    Fifo(FifoNumber),
}

/// How often a frame is retransmitted; 3 also reads as unlimited.
#[derive(Clone, Copy, Debug, PartialEq, Eq, Structural)]
pub enum RetransmissionAttempts {
    Disabled,
    ThreeRetries,
    UnlimitedRetries,
}

impl RetransmissionAttempts {
    /// The value that encodes this variant in its register field.
    pub open spec fn spec_value(self) -> u8 {
        match self {
            RetransmissionAttempts::Disabled => 0,
            RetransmissionAttempts::ThreeRetries => 1,
            RetransmissionAttempts::UnlimitedRetries => 2,
        }
    }

    pub fn value(self) -> (r: u8)
        ensures
            r == self.spec_value(),
    {
        match self {
            RetransmissionAttempts::Disabled => 0,
            RetransmissionAttempts::ThreeRetries => 1,
            RetransmissionAttempts::UnlimitedRetries => 2,
        }
    }

    /// The variant that the raw value `v` encodes, if any.
    pub open spec fn spec_from_value(v: u8) -> Option<RetransmissionAttempts> {
        if v == 0 {
            Some(RetransmissionAttempts::Disabled)
        } else if v == 1 {
            Some(RetransmissionAttempts::ThreeRetries)
        } else if v == 2 {
            Some(RetransmissionAttempts::UnlimitedRetries)
        } else if v == 3 {
            Some(RetransmissionAttempts::UnlimitedRetries)
        } else {
            None
        }
    }

    /// The variant that `v` encodes, if any.
    pub fn try_from_value(v: u8) -> (r: Option<RetransmissionAttempts>)
        ensures
            r == Self::spec_from_value(v),
            r matches Some(x) ==> x.spec_value() == v || v == 3,
    {
        match v {
            0 => Some(RetransmissionAttempts::Disabled),
            1 => Some(RetransmissionAttempts::ThreeRetries),
            2 => Some(RetransmissionAttempts::UnlimitedRetries),
            3 => Some(RetransmissionAttempts::UnlimitedRetries),
            _ => None,
        }
    }
}

impl Default for RetransmissionAttempts {
    fn default() -> (r: Self)
        ensures
            r == RetransmissionAttempts::UnlimitedRetries,
    {
        RetransmissionAttempts::UnlimitedRetries
    }
}

/// Payload capacity of each object of a FIFO.
#[derive(Clone, Copy, Debug, PartialEq, Eq, Structural)]
pub enum PayloadSize {
    Bytes8,
    Bytes12,
    Bytes16,
    Bytes20,
    Bytes24,
    Bytes32,
    Bytes48,
    Bytes64,
}

impl PayloadSize {
    /// The value that encodes this variant in its register field.
    pub open spec fn spec_value(self) -> u8 {
        match self {
            PayloadSize::Bytes8 => 0,
            PayloadSize::Bytes12 => 1,
            PayloadSize::Bytes16 => 2,
            PayloadSize::Bytes20 => 3,
            PayloadSize::Bytes24 => 4,
            PayloadSize::Bytes32 => 5,
            PayloadSize::Bytes48 => 6,
            PayloadSize::Bytes64 => 7,
        }
    }

    pub fn value(self) -> (r: u8)
        ensures
            r == self.spec_value(),
    {
        match self {
            PayloadSize::Bytes8 => 0,
            PayloadSize::Bytes12 => 1,
            PayloadSize::Bytes16 => 2,
            PayloadSize::Bytes20 => 3,
            PayloadSize::Bytes24 => 4,
            PayloadSize::Bytes32 => 5,
            PayloadSize::Bytes48 => 6,
            PayloadSize::Bytes64 => 7,
        }
    }

    /// The variant that the raw value `v` encodes, if any.
    pub open spec fn spec_from_value(v: u8) -> Option<PayloadSize> {
        if v == 0 {
            Some(PayloadSize::Bytes8)
        } else if v == 1 {
            Some(PayloadSize::Bytes12)
        } else if v == 2 {
            Some(PayloadSize::Bytes16)
        } else if v == 3 {
            Some(PayloadSize::Bytes20)
        } else if v == 4 {
            Some(PayloadSize::Bytes24)
        } else if v == 5 {
            Some(PayloadSize::Bytes32)
        } else if v == 6 {
            Some(PayloadSize::Bytes48)
        } else if v == 7 {
            Some(PayloadSize::Bytes64)
        } else {
            None
        }
    }

    /// The variant that `v` encodes, if any.
    pub fn try_from_value(v: u8) -> (r: Option<PayloadSize>)
        ensures
            r == Self::spec_from_value(v),
            r matches Some(x) ==> x.spec_value() == v,
    {
        match v {
            0 => Some(PayloadSize::Bytes8),
            1 => Some(PayloadSize::Bytes12),
            2 => Some(PayloadSize::Bytes16),
            3 => Some(PayloadSize::Bytes20),
            4 => Some(PayloadSize::Bytes24),
            5 => Some(PayloadSize::Bytes32),
            6 => Some(PayloadSize::Bytes48),
            7 => Some(PayloadSize::Bytes64),

            _ => None,
        }
    }
}

impl PayloadSize {
    /// Bytes a payload of this FIFO may hold, as compared against a frame's
    /// payload length. `Bytes64` counts 65.
    pub open spec fn spec_num_bytes(self) -> usize {
        match self {
            PayloadSize::Bytes8 => 8,
            PayloadSize::Bytes12 => 12,
            PayloadSize::Bytes16 => 16,
            PayloadSize::Bytes20 => 20,
            PayloadSize::Bytes24 => 24,
            PayloadSize::Bytes32 => 32,
            PayloadSize::Bytes48 => 48,
            PayloadSize::Bytes64 => 65,
        }
    }

    pub fn num_bytes(&self) -> (r: usize)
        ensures
            r == self.spec_num_bytes(),
    {
        match self {
            PayloadSize::Bytes8 => 8,
            PayloadSize::Bytes12 => 12,
            PayloadSize::Bytes16 => 16,
            PayloadSize::Bytes20 => 20,
            PayloadSize::Bytes24 => 24,
            PayloadSize::Bytes32 => 32,
            PayloadSize::Bytes48 => 48,
            PayloadSize::Bytes64 => 65,
        }
    }
}

/// The FSIZE field value for a requested FIFO depth: the depth less one,
/// with 0 and depths above 32 taken as 32.
pub open spec fn fsize_field_for(size: u8) -> u32 {
    if size == 0 || size > 32 {
        31
    } else {
        (size - 1) as u32
    }
}

#[derive(Clone, Copy, Debug, PartialEq, Eq, Structural)]
pub struct UserAddressRegister(pub u32);

impl UserAddressRegister {
    pub fn fifoua(&self) -> (r: u32)
        ensures
            r == field(self.0, 0, 32),
    {
        get_field(self.0, 0, 32)
    }
}

impl RegisterValue for UserAddressRegister {
    open spec fn word(&self) -> u32 {
        self.0
    }

    fn from_word(word: u32) -> (r: Self) {
        UserAddressRegister(word)
    }

    fn to_word(&self) -> (r: u32) {
        self.0
    }
}

#[derive(Clone, Copy, Debug, PartialEq, Eq, Structural)]
pub struct TxEventFifoControlRegister(pub u32);

impl TxEventFifoControlRegister {
    pub fn tefneie(&self) -> (r: bool)
        ensures
            r == flag(self.0, 0),
    {
        get_flag(self.0, 0)
    }

    pub fn set_tefneie(&mut self, value: bool)
        ensures
            final(self).0 == with_flag(old(self).0, 0, value),
    {
        self.0 = put_flag(self.0, 0, value);
    }

    pub fn tefhie(&self) -> (r: bool)
        ensures
            r == flag(self.0, 1),
    {
        get_flag(self.0, 1)
    }

    pub fn set_tefhie(&mut self, value: bool)
        ensures
            final(self).0 == with_flag(old(self).0, 1, value),
    {
        self.0 = put_flag(self.0, 1, value);
    }

    pub fn teffie(&self) -> (r: bool)
        ensures
            r == flag(self.0, 2),
    {
        get_flag(self.0, 2)
    }

    pub fn set_teffie(&mut self, value: bool)
        ensures
            final(self).0 == with_flag(old(self).0, 2, value),
    {
        self.0 = put_flag(self.0, 2, value);
    }

    pub fn tefovie(&self) -> (r: bool)
        ensures
            r == flag(self.0, 3),
    {
        get_flag(self.0, 3)
    }

    pub fn set_tefovie(&mut self, value: bool)
        ensures
            final(self).0 == with_flag(old(self).0, 3, value),
    {
        self.0 = put_flag(self.0, 3, value);
    }

    pub fn teftsen(&self) -> (r: bool)
        ensures
            r == flag(self.0, 5),
    {
        get_flag(self.0, 5)
    }

    pub fn set_teftsen(&mut self, value: bool)
        ensures
            final(self).0 == with_flag(old(self).0, 5, value),
    {
        self.0 = put_flag(self.0, 5, value);
    }

    pub fn uinc(&self) -> (r: bool)
        ensures
            r == flag(self.0, 8),
    {
        get_flag(self.0, 8)
    }

    pub fn set_uinc(&mut self)
        ensures
            final(self).0 == with_flag(old(self).0, 8, true),
    {
        self.0 = put_flag(self.0, 8, true);
    }

    pub fn freset(&self) -> (r: bool)
        ensures
            r == flag(self.0, 10),
    {
        get_flag(self.0, 10)
    }

    pub fn set_freset(&mut self)
        ensures
            final(self).0 == with_flag(old(self).0, 10, true),
    {
        self.0 = put_flag(self.0, 10, true);
    }
}

impl RegisterValue for TxEventFifoControlRegister {
    open spec fn word(&self) -> u32 {
        self.0
    }

    fn from_word(word: u32) -> (r: Self) {
        TxEventFifoControlRegister(word)
    }

    fn to_word(&self) -> (r: u32) {
        self.0
    }
}

impl Register for TxEventFifoControlRegister {
    open spec fn spec_address() -> SFRAddress {
        SFRAddress::C1TEFCON
    }

    fn get_address() -> (r: SFRAddress) {
        SFRAddress::C1TEFCON
    }
}

#[derive(Clone, Copy, Debug, PartialEq, Eq, Structural)]
pub struct TxEventFifoStatusRegister(pub u32);

impl TxEventFifoStatusRegister {
    pub fn tefneif(&self) -> (r: bool)
        ensures
            r == flag(self.0, 0),
    {
        get_flag(self.0, 0)
    }

    pub fn tefhif(&self) -> (r: bool)
        ensures
            r == flag(self.0, 1),
    {
        get_flag(self.0, 1)
    }

    pub fn teffif(&self) -> (r: bool)
        ensures
            r == flag(self.0, 2),
    {
        get_flag(self.0, 2)
    }

    pub fn tefovif(&self) -> (r: bool)
        ensures
            r == flag(self.0, 3),
    {
        get_flag(self.0, 3)
    }

    pub fn clear_tefovif(&mut self)
        ensures
            final(self).0 == with_flag(old(self).0, 3, false),
    {
        self.0 = put_flag(self.0, 3, false);
    }
}

impl RegisterValue for TxEventFifoStatusRegister {
    open spec fn word(&self) -> u32 {
        self.0
    }

    fn from_word(word: u32) -> (r: Self) {
        TxEventFifoStatusRegister(word)
    }

    fn to_word(&self) -> (r: u32) {
        self.0
    }
}

impl Register for TxEventFifoStatusRegister {
    open spec fn spec_address() -> SFRAddress {
        SFRAddress::C1TEFSTA
    }

    fn get_address() -> (r: SFRAddress) {
        SFRAddress::C1TEFSTA
    }
}

#[derive(Clone, Copy, Debug, PartialEq, Eq, Structural)]
pub struct TxQueueControlRegister(pub u32);

impl TxQueueControlRegister {
    pub fn txqnie(&self) -> (r: bool)
        ensures
            r == flag(self.0, 0),
    {
        get_flag(self.0, 0)
    }

    pub fn set_txqnie(&mut self, value: bool)
        ensures
            final(self).0 == with_flag(old(self).0, 0, value),
    {
        self.0 = put_flag(self.0, 0, value);
    }

    pub fn txqeie(&self) -> (r: bool)
        ensures
            r == flag(self.0, 2),
    {
        get_flag(self.0, 2)
    }

    pub fn set_txqeie(&mut self, value: bool)
        ensures
            final(self).0 == with_flag(old(self).0, 2, value),
    {
        self.0 = put_flag(self.0, 2, value);
    }

    pub fn txatie(&self) -> (r: bool)
        ensures
            r == flag(self.0, 4),
    {
        get_flag(self.0, 4)
    }

    pub fn set_txatie(&mut self, value: bool)
        ensures
            final(self).0 == with_flag(old(self).0, 4, value),
    {
        self.0 = put_flag(self.0, 4, value);
    }

    pub fn txen(&self) -> (r: bool)
        ensures
            r == flag(self.0, 7),
    {
        get_flag(self.0, 7)
    }

    pub fn txreq(&self) -> (r: bool)
        ensures
            r == flag(self.0, 9),
    {
        get_flag(self.0, 9)
    }

    pub fn set_txreq(&mut self, value: bool)
        ensures
            final(self).0 == with_flag(old(self).0, 9, value),
    {
        self.0 = put_flag(self.0, 9, value);
    }

    pub fn txpri(&self) -> (r: u8)
        ensures
            r == field(self.0, 16, 5) as u8,
    {
        get_field(self.0, 16, 5) as u8
    }

    pub fn set_txpri(&mut self, value: u8)
        ensures
            final(self).0 == with_field(old(self).0, 16, 5, value as u32),
    {
        self.0 = put_field(self.0, 16, 5, value as u32);
    }

    pub fn uinc(&self) -> (r: bool)
        ensures
            r == flag(self.0, 8),
    {
        get_flag(self.0, 8)
    }

    pub fn set_uinc(&mut self)
        ensures
            final(self).0 == with_flag(old(self).0, 8, true),
    {
        self.0 = put_flag(self.0, 8, true);
    }

    pub fn freset(&self) -> (r: bool)
        ensures
            r == flag(self.0, 10),
    {
        get_flag(self.0, 10)
    }

    pub fn set_freset(&mut self)
        ensures
            final(self).0 == with_flag(old(self).0, 10, true),
    {
        self.0 = put_flag(self.0, 10, true);
    }
}

impl RegisterValue for TxQueueControlRegister {
    open spec fn word(&self) -> u32 {
        self.0
    }

    fn from_word(word: u32) -> (r: Self) {
        TxQueueControlRegister(word)
    }

    fn to_word(&self) -> (r: u32) {
        self.0
    }
}

impl Register for TxQueueControlRegister {
    open spec fn spec_address() -> SFRAddress {
        SFRAddress::C1TXQCON
    }

    fn get_address() -> (r: SFRAddress) {
        SFRAddress::C1TXQCON
    }
}

#[derive(Clone, Copy, Debug, PartialEq, Eq, Structural)]
pub struct TxQueueStatusRegister(pub u32);

impl TxQueueStatusRegister {
    pub fn txqnif(&self) -> (r: bool)
        ensures
            r == flag(self.0, 0),
    {
        get_flag(self.0, 0)
    }

    pub fn txqeif(&self) -> (r: bool)
        ensures
            r == flag(self.0, 2),
    {
        get_flag(self.0, 2)
    }

    pub fn txqci(&self) -> (r: u8)
        ensures
            r == field(self.0, 8, 5) as u8,
    {
        get_field(self.0, 8, 5) as u8
    }

    pub fn txatif(&self) -> (r: bool)
        ensures
            r == flag(self.0, 4),
    {
        get_flag(self.0, 4)
    }

    pub fn clear_txatif(&mut self)
        ensures
            final(self).0 == with_flag(old(self).0, 4, false),
    {
        self.0 = put_flag(self.0, 4, false);
    }

    pub fn txerr(&self) -> (r: bool)
        ensures
            r == flag(self.0, 5),
    {
        get_flag(self.0, 5)
    }

    pub fn clear_txerr(&mut self)
        ensures
            final(self).0 == with_flag(old(self).0, 5, false),
    {
        self.0 = put_flag(self.0, 5, false);
    }

    pub fn txlarb(&self) -> (r: bool)
        ensures
            r == flag(self.0, 6),
    {
        get_flag(self.0, 6)
    }

    pub fn clear_txlarb(&mut self)
        ensures
            final(self).0 == with_flag(old(self).0, 6, false),
    {
        self.0 = put_flag(self.0, 6, false);
    }

    pub fn txabt(&self) -> (r: bool)
        ensures
            r == flag(self.0, 7),
    {
        get_flag(self.0, 7)
    }

    pub fn clear_txabt(&mut self)
        ensures
            final(self).0 == with_flag(old(self).0, 7, false),
    {
        self.0 = put_flag(self.0, 7, false);
    }
}

impl RegisterValue for TxQueueStatusRegister {
    open spec fn word(&self) -> u32 {
        self.0
    }

    fn from_word(word: u32) -> (r: Self) {
        TxQueueStatusRegister(word)
    }

    fn to_word(&self) -> (r: u32) {
        self.0
    }
}

impl Register for TxQueueStatusRegister {
    open spec fn spec_address() -> SFRAddress {
        SFRAddress::C1TXQSTA
    }

    fn get_address() -> (r: SFRAddress) {
        SFRAddress::C1TXQSTA
    }
}

#[derive(Clone, Copy, Debug, PartialEq, Eq, Structural)]
pub struct FifoControlRegister(pub u32);

impl FifoControlRegister {
    pub fn tfnrfnie(&self) -> (r: bool)
        ensures
            r == flag(self.0, 0),
    {
        get_flag(self.0, 0)
    }

    pub fn set_tfnrfnie(&mut self, value: bool)
        ensures
            final(self).0 == with_flag(old(self).0, 0, value),
    {
        self.0 = put_flag(self.0, 0, value);
    }

    pub fn tfhrfhie(&self) -> (r: bool)
        ensures
            r == flag(self.0, 1),
    {
        get_flag(self.0, 1)
    }

    pub fn set_tfhrfhie(&mut self, value: bool)
        ensures
            final(self).0 == with_flag(old(self).0, 1, value),
    {
        self.0 = put_flag(self.0, 1, value);
    }

    pub fn tferffie(&self) -> (r: bool)
        ensures
            r == flag(self.0, 2),
    {
        get_flag(self.0, 2)
    }

    pub fn set_tferffie(&mut self, value: bool)
        ensures
            final(self).0 == with_flag(old(self).0, 2, value),
    {
        self.0 = put_flag(self.0, 2, value);
    }

    pub fn rxovie(&self) -> (r: bool)
        ensures
            r == flag(self.0, 3),
    {
        get_flag(self.0, 3)
    }

    pub fn set_rxovie(&mut self, value: bool)
        ensures
            final(self).0 == with_flag(old(self).0, 3, value),
    {
        self.0 = put_flag(self.0, 3, value);
    }

    pub fn txatie(&self) -> (r: bool)
        ensures
            r == flag(self.0, 4),
    {
        get_flag(self.0, 4)
    }

    pub fn set_txatie(&mut self, value: bool)
        ensures
            final(self).0 == with_flag(old(self).0, 4, value),
    {
        self.0 = put_flag(self.0, 4, value);
    }

    pub fn rxtsen(&self) -> (r: bool)
        ensures
            r == flag(self.0, 5),
    {
        get_flag(self.0, 5)
    }

    pub fn set_rxtsen(&mut self, value: bool)
        ensures
            final(self).0 == with_flag(old(self).0, 5, value),
    {
        self.0 = put_flag(self.0, 5, value);
    }

    pub fn rtren(&self) -> (r: bool)
        ensures
            r == flag(self.0, 6),
    {
        get_flag(self.0, 6)
    }

    pub fn set_rtren(&mut self, value: bool)
        ensures
            final(self).0 == with_flag(old(self).0, 6, value),
    {
        self.0 = put_flag(self.0, 6, value);
    }

    pub fn txen(&self) -> (r: bool)
        ensures
            r == flag(self.0, 7),
    {
        get_flag(self.0, 7)
    }

    pub fn set_txen(&mut self, value: bool)
        ensures
            final(self).0 == with_flag(old(self).0, 7, value),
    {
        self.0 = put_flag(self.0, 7, value);
    }

    pub fn txreq(&self) -> (r: bool)
        ensures
            r == flag(self.0, 9),
    {
        get_flag(self.0, 9)
    }

    pub fn set_txreq(&mut self, value: bool)
        ensures
            final(self).0 == with_flag(old(self).0, 9, value),
    {
        self.0 = put_flag(self.0, 9, value);
    }

    pub fn txpri(&self) -> (r: u8)
        ensures
            r == field(self.0, 16, 5) as u8,
    {
        get_field(self.0, 16, 5) as u8
    }

    pub fn set_txpri(&mut self, value: u8)
        ensures
            final(self).0 == with_field(old(self).0, 16, 5, value as u32),
    {
        self.0 = put_field(self.0, 16, 5, value as u32);
    }

    pub fn uinc(&self) -> (r: bool)
        ensures
            r == flag(self.0, 8),
    {
        get_flag(self.0, 8)
    }

    pub fn set_uinc(&mut self)
        ensures
            final(self).0 == with_flag(old(self).0, 8, true),
    {
        self.0 = put_flag(self.0, 8, true);
    }

    pub fn freset(&self) -> (r: bool)
        ensures
            r == flag(self.0, 10),
    {
        get_flag(self.0, 10)
    }

    pub fn set_freset(&mut self)
        ensures
            final(self).0 == with_flag(old(self).0, 10, true),
    {
        self.0 = put_flag(self.0, 10, true);
    }
}

impl RegisterValue for FifoControlRegister {
    open spec fn word(&self) -> u32 {
        self.0
    }

    fn from_word(word: u32) -> (r: Self) {
        FifoControlRegister(word)
    }

    fn to_word(&self) -> (r: u32) {
        self.0
    }
}

#[derive(Clone, Copy, Debug, PartialEq, Eq, Structural)]
pub struct FifoStatusRegister(pub u32);

impl FifoStatusRegister {
    pub fn tfnrfnif(&self) -> (r: bool)
        ensures
            r == flag(self.0, 0),
    {
        get_flag(self.0, 0)
    }

    pub fn tfhrfhif(&self) -> (r: bool)
        ensures
            r == flag(self.0, 1),
    {
        get_flag(self.0, 1)
    }

    pub fn tferffif(&self) -> (r: bool)
        ensures
            r == flag(self.0, 2),
    {
        get_flag(self.0, 2)
    }

    pub fn fifoci(&self) -> (r: u8)
        ensures
            r == field(self.0, 8, 5) as u8,
    {
        get_field(self.0, 8, 5) as u8
    }

    pub fn rxovif(&self) -> (r: bool)
        ensures
            r == flag(self.0, 3),
    {
        get_flag(self.0, 3)
    }

    pub fn clear_rxovif(&mut self)
        ensures
            final(self).0 == with_flag(old(self).0, 3, false),
    {
        self.0 = put_flag(self.0, 3, false);
    }

    pub fn txatif(&self) -> (r: bool)
        ensures
            r == flag(self.0, 4),
    {
        get_flag(self.0, 4)
    }

    pub fn clear_txatif(&mut self)
        ensures
            final(self).0 == with_flag(old(self).0, 4, false),
    {
        self.0 = put_flag(self.0, 4, false);
    }

    pub fn txerr(&self) -> (r: bool)
        ensures
            r == flag(self.0, 5),
    {
        get_flag(self.0, 5)
    }

    pub fn clear_txerr(&mut self)
        ensures
            final(self).0 == with_flag(old(self).0, 5, false),
    {
        self.0 = put_flag(self.0, 5, false);
    }

    pub fn txlarb(&self) -> (r: bool)
        ensures
            r == flag(self.0, 6),
    {
        get_flag(self.0, 6)
    }

    pub fn clear_txlarb(&mut self)
        ensures
            final(self).0 == with_flag(old(self).0, 6, false),
    {
        self.0 = put_flag(self.0, 6, false);
    }

    pub fn txabt(&self) -> (r: bool)
        ensures
            r == flag(self.0, 7),
    {
        get_flag(self.0, 7)
    }

    pub fn clear_txabt(&mut self)
        ensures
            final(self).0 == with_flag(old(self).0, 7, false),
    {
        self.0 = put_flag(self.0, 7, false);
    }
}

impl RegisterValue for FifoStatusRegister {
    open spec fn word(&self) -> u32 {
        self.0
    }

    fn from_word(word: u32) -> (r: Self) {
        FifoStatusRegister(word)
    }

    fn to_word(&self) -> (r: u32) {
        self.0
    }
}

impl TxEventFifoControlRegister {
    /// Number of objects in the FIFO: FSIZE plus one.
    pub fn fifo_size(&self) -> (r: u8)
        ensures
            r == field(self.0, 24, 5) + 1,
            1 <= r <= 32,
    {
        proof {
            crate::bits::lemma_low_mask_values();
            crate::bits::lemma_field_bound(self.0, 24, 5);
        }
        get_field(self.0, 24, 5) as u8 + 1
    }

    /// Sets the number of objects, from 1 to 32; 0 and values above 32 give 32.
    pub fn set_fifo_size(&mut self, size: u8)
        ensures
            final(self).0 == with_field(old(self).0, 24, 5, fsize_field_for(size)),
    {
        let raw: u32 = if size == 0 || size > 32 {
            31
        } else {
            (size - 1) as u32
        };
        self.0 = put_field(self.0, 24, 5, raw);
    }
}

impl TxQueueControlRegister {
    /// Number of objects in the FIFO: FSIZE plus one.
    pub fn fifo_size(&self) -> (r: u8)
        ensures
            r == field(self.0, 24, 5) + 1,
            1 <= r <= 32,
    {
        proof {
            crate::bits::lemma_low_mask_values();
            crate::bits::lemma_field_bound(self.0, 24, 5);
        }
        get_field(self.0, 24, 5) as u8 + 1
    }

    /// Sets the number of objects, from 1 to 32; 0 and values above 32 give 32.
    pub fn set_fifo_size(&mut self, size: u8)
        ensures
            final(self).0 == with_field(old(self).0, 24, 5, fsize_field_for(size)),
    {
        let raw: u32 = if size == 0 || size > 32 {
            31
        } else {
            (size - 1) as u32
        };
        self.0 = put_field(self.0, 24, 5, raw);
    }

    /// Retransmission policy (TXAT, bits 21 and 22).
    pub fn retransmission_attempts(&self) -> (r: RetransmissionAttempts)
        ensures
            Some(r) == RetransmissionAttempts::spec_from_value(field(self.0, 21, 2) as u8),
    {
        proof {
            crate::bits::lemma_low_mask_values();
            crate::bits::lemma_field_bound(self.0, 21, 2);
        }
        match RetransmissionAttempts::try_from_value(get_field(self.0, 21, 2) as u8) {
            Some(val) => val,
            None => RetransmissionAttempts::UnlimitedRetries,
        }
    }

    pub fn set_retransmission_attempts(&mut self, value: RetransmissionAttempts)
        ensures
            final(self).0 == with_field(old(self).0, 21, 2, value.spec_value() as u32),
    {
        self.0 = put_field(self.0, 21, 2, value.value() as u32);
    }

    /// Payload capacity of each object (PLSIZE, bits 29 to 31).
    pub fn payload_size(&self) -> (r: PayloadSize)
        ensures
            Some(r) == PayloadSize::spec_from_value(field(self.0, 29, 3) as u8),
            r.spec_value() == field(self.0, 29, 3),
    {
        proof {
            crate::bits::lemma_low_mask_values();
            crate::bits::lemma_field_bound(self.0, 29, 3);
        }
        match PayloadSize::try_from_value(get_field(self.0, 29, 3) as u8) {
            Some(val) => val,
            None => PayloadSize::Bytes8,
        }
    }

    pub fn set_payload_size(&mut self, size: PayloadSize)
        ensures
            final(self).0 == with_field(old(self).0, 29, 3, size.spec_value() as u32),
    {
        self.0 = put_field(self.0, 29, 3, size.value() as u32);
    }
}

impl FifoControlRegister {
    /// Number of objects in the FIFO: FSIZE plus one.
    pub fn fifo_size(&self) -> (r: u8)
        ensures
            r == field(self.0, 24, 5) + 1,
            1 <= r <= 32,
    {
        proof {
            crate::bits::lemma_low_mask_values();
            crate::bits::lemma_field_bound(self.0, 24, 5);
        }
        get_field(self.0, 24, 5) as u8 + 1
    }

    /// Sets the number of objects, from 1 to 32; 0 and values above 32 give 32.
    pub fn set_fifo_size(&mut self, size: u8)
        ensures
            final(self).0 == with_field(old(self).0, 24, 5, fsize_field_for(size)),
    {
        let raw: u32 = if size == 0 || size > 32 {
            31
        } else {
            (size - 1) as u32
        };
        self.0 = put_field(self.0, 24, 5, raw);
    }

    /// Retransmission policy (TXAT, bits 21 and 22).
    pub fn retransmission_attempts(&self) -> (r: RetransmissionAttempts)
        ensures
            Some(r) == RetransmissionAttempts::spec_from_value(field(self.0, 21, 2) as u8),
    {
        proof {
            crate::bits::lemma_low_mask_values();
            crate::bits::lemma_field_bound(self.0, 21, 2);
        }
        match RetransmissionAttempts::try_from_value(get_field(self.0, 21, 2) as u8) {
            Some(val) => val,
            None => RetransmissionAttempts::UnlimitedRetries,
        }
    }

    pub fn set_retransmission_attempts(&mut self, value: RetransmissionAttempts)
        ensures
            final(self).0 == with_field(old(self).0, 21, 2, value.spec_value() as u32),
    {
        self.0 = put_field(self.0, 21, 2, value.value() as u32);
    }

    /// Payload capacity of each object (PLSIZE, bits 29 to 31).
    pub fn payload_size(&self) -> (r: PayloadSize)
        ensures
            Some(r) == PayloadSize::spec_from_value(field(self.0, 29, 3) as u8),
            r.spec_value() == field(self.0, 29, 3),
    {
        proof {
            crate::bits::lemma_low_mask_values();
            crate::bits::lemma_field_bound(self.0, 29, 3);
        }
        match PayloadSize::try_from_value(get_field(self.0, 29, 3) as u8) {
            Some(val) => val,
            None => PayloadSize::Bytes8,
        }
    }

    pub fn set_payload_size(&mut self, size: PayloadSize)
        ensures
            final(self).0 == with_field(old(self).0, 29, 3, size.spec_value() as u32),
    {
        self.0 = put_field(self.0, 29, 3, size.value() as u32);
    }
}

impl UserAddressRegister {
    /// The RAM address that the user address points at: the register value
    /// plus the RAM base, wrapping on overflow.
    pub fn calculate_ram_address(&self) -> (r: u32)
        ensures
            r == (self.0 + RAM_BASE_ADDRESS) % 0x1_0000_0000,
    {
        if self.0 <= u32::MAX - RAM_BASE_ADDRESS {
            self.0 + RAM_BASE_ADDRESS
        } else {
            self.0 - (u32::MAX - RAM_BASE_ADDRESS + 1)
        }
    }
}

impl RepeatedRegister for UserAddressRegister {
    type Index = UserAddressKind;

    open spec fn spec_address_for(index: UserAddressKind) -> SFRAddress {
        match index {
            UserAddressKind::TxEventFifo => SFRAddress::C1TEFUA,
            UserAddressKind::TxQueue => SFRAddress::C1TXQUA,
            UserAddressKind::Fifo(FifoNumber::Fifo1) => SFRAddress::C1FIFOUA1,
            UserAddressKind::Fifo(FifoNumber::Fifo2) => SFRAddress::C1FIFOUA2,
            UserAddressKind::Fifo(FifoNumber::Fifo3) => SFRAddress::C1FIFOUA3,
            UserAddressKind::Fifo(FifoNumber::Fifo4) => SFRAddress::C1FIFOUA4,
            UserAddressKind::Fifo(FifoNumber::Fifo5) => SFRAddress::C1FIFOUA5,
            UserAddressKind::Fifo(FifoNumber::Fifo6) => SFRAddress::C1FIFOUA6,
            UserAddressKind::Fifo(FifoNumber::Fifo7) => SFRAddress::C1FIFOUA7,
            UserAddressKind::Fifo(FifoNumber::Fifo8) => SFRAddress::C1FIFOUA8,
            UserAddressKind::Fifo(FifoNumber::Fifo9) => SFRAddress::C1FIFOUA9,
            UserAddressKind::Fifo(FifoNumber::Fifo10) => SFRAddress::C1FIFOUA10,
            UserAddressKind::Fifo(FifoNumber::Fifo11) => SFRAddress::C1FIFOUA11,
            UserAddressKind::Fifo(FifoNumber::Fifo12) => SFRAddress::C1FIFOUA12,
            UserAddressKind::Fifo(FifoNumber::Fifo13) => SFRAddress::C1FIFOUA13,
            UserAddressKind::Fifo(FifoNumber::Fifo14) => SFRAddress::C1FIFOUA14,
            UserAddressKind::Fifo(FifoNumber::Fifo15) => SFRAddress::C1FIFOUA15,
            UserAddressKind::Fifo(FifoNumber::Fifo16) => SFRAddress::C1FIFOUA16,
            UserAddressKind::Fifo(FifoNumber::Fifo17) => SFRAddress::C1FIFOUA17,
            UserAddressKind::Fifo(FifoNumber::Fifo18) => SFRAddress::C1FIFOUA18,
            UserAddressKind::Fifo(FifoNumber::Fifo19) => SFRAddress::C1FIFOUA19,
            UserAddressKind::Fifo(FifoNumber::Fifo20) => SFRAddress::C1FIFOUA20,
            UserAddressKind::Fifo(FifoNumber::Fifo21) => SFRAddress::C1FIFOUA21,
            UserAddressKind::Fifo(FifoNumber::Fifo22) => SFRAddress::C1FIFOUA22,
            UserAddressKind::Fifo(FifoNumber::Fifo23) => SFRAddress::C1FIFOUA23,
            UserAddressKind::Fifo(FifoNumber::Fifo24) => SFRAddress::C1FIFOUA24,
            UserAddressKind::Fifo(FifoNumber::Fifo25) => SFRAddress::C1FIFOUA25,
            UserAddressKind::Fifo(FifoNumber::Fifo26) => SFRAddress::C1FIFOUA26,
            UserAddressKind::Fifo(FifoNumber::Fifo27) => SFRAddress::C1FIFOUA27,
            UserAddressKind::Fifo(FifoNumber::Fifo28) => SFRAddress::C1FIFOUA28,
            UserAddressKind::Fifo(FifoNumber::Fifo29) => SFRAddress::C1FIFOUA29,
            UserAddressKind::Fifo(FifoNumber::Fifo30) => SFRAddress::C1FIFOUA30,
            UserAddressKind::Fifo(FifoNumber::Fifo31) => SFRAddress::C1FIFOUA31,
        }
    }

    fn get_address_for(index: UserAddressKind) -> (r: SFRAddress) {
        match index {
            UserAddressKind::TxEventFifo => SFRAddress::C1TEFUA,
            UserAddressKind::TxQueue => SFRAddress::C1TXQUA,
            UserAddressKind::Fifo(FifoNumber::Fifo1) => SFRAddress::C1FIFOUA1,
            UserAddressKind::Fifo(FifoNumber::Fifo2) => SFRAddress::C1FIFOUA2,
            UserAddressKind::Fifo(FifoNumber::Fifo3) => SFRAddress::C1FIFOUA3,
            UserAddressKind::Fifo(FifoNumber::Fifo4) => SFRAddress::C1FIFOUA4,
            UserAddressKind::Fifo(FifoNumber::Fifo5) => SFRAddress::C1FIFOUA5,
            UserAddressKind::Fifo(FifoNumber::Fifo6) => SFRAddress::C1FIFOUA6,
            UserAddressKind::Fifo(FifoNumber::Fifo7) => SFRAddress::C1FIFOUA7,
            UserAddressKind::Fifo(FifoNumber::Fifo8) => SFRAddress::C1FIFOUA8,
            UserAddressKind::Fifo(FifoNumber::Fifo9) => SFRAddress::C1FIFOUA9,
            UserAddressKind::Fifo(FifoNumber::Fifo10) => SFRAddress::C1FIFOUA10,
            UserAddressKind::Fifo(FifoNumber::Fifo11) => SFRAddress::C1FIFOUA11,
            UserAddressKind::Fifo(FifoNumber::Fifo12) => SFRAddress::C1FIFOUA12,
            UserAddressKind::Fifo(FifoNumber::Fifo13) => SFRAddress::C1FIFOUA13,
            UserAddressKind::Fifo(FifoNumber::Fifo14) => SFRAddress::C1FIFOUA14,
            UserAddressKind::Fifo(FifoNumber::Fifo15) => SFRAddress::C1FIFOUA15,
            UserAddressKind::Fifo(FifoNumber::Fifo16) => SFRAddress::C1FIFOUA16,
            UserAddressKind::Fifo(FifoNumber::Fifo17) => SFRAddress::C1FIFOUA17,
            UserAddressKind::Fifo(FifoNumber::Fifo18) => SFRAddress::C1FIFOUA18,
            UserAddressKind::Fifo(FifoNumber::Fifo19) => SFRAddress::C1FIFOUA19,
            UserAddressKind::Fifo(FifoNumber::Fifo20) => SFRAddress::C1FIFOUA20,
            UserAddressKind::Fifo(FifoNumber::Fifo21) => SFRAddress::C1FIFOUA21,
            UserAddressKind::Fifo(FifoNumber::Fifo22) => SFRAddress::C1FIFOUA22,
            UserAddressKind::Fifo(FifoNumber::Fifo23) => SFRAddress::C1FIFOUA23,
            UserAddressKind::Fifo(FifoNumber::Fifo24) => SFRAddress::C1FIFOUA24,
            UserAddressKind::Fifo(FifoNumber::Fifo25) => SFRAddress::C1FIFOUA25,
            UserAddressKind::Fifo(FifoNumber::Fifo26) => SFRAddress::C1FIFOUA26,
            UserAddressKind::Fifo(FifoNumber::Fifo27) => SFRAddress::C1FIFOUA27,
            UserAddressKind::Fifo(FifoNumber::Fifo28) => SFRAddress::C1FIFOUA28,
            UserAddressKind::Fifo(FifoNumber::Fifo29) => SFRAddress::C1FIFOUA29,
            UserAddressKind::Fifo(FifoNumber::Fifo30) => SFRAddress::C1FIFOUA30,
            UserAddressKind::Fifo(FifoNumber::Fifo31) => SFRAddress::C1FIFOUA31,
        }
    }
}

impl RepeatedRegister for FifoControlRegister {
    type Index = FifoNumber;

    open spec fn spec_address_for(index: FifoNumber) -> SFRAddress {
        match index {
            FifoNumber::Fifo1 => SFRAddress::C1FIFOCON1,
            FifoNumber::Fifo2 => SFRAddress::C1FIFOCON2,
            FifoNumber::Fifo3 => SFRAddress::C1FIFOCON3,
            FifoNumber::Fifo4 => SFRAddress::C1FIFOCON4,
            FifoNumber::Fifo5 => SFRAddress::C1FIFOCON5,
            FifoNumber::Fifo6 => SFRAddress::C1FIFOCON6,
            FifoNumber::Fifo7 => SFRAddress::C1FIFOCON7,
            FifoNumber::Fifo8 => SFRAddress::C1FIFOCON8,
            FifoNumber::Fifo9 => SFRAddress::C1FIFOCON9,
            FifoNumber::Fifo10 => SFRAddress::C1FIFOCON10,
            FifoNumber::Fifo11 => SFRAddress::C1FIFOCON11,
            FifoNumber::Fifo12 => SFRAddress::C1FIFOCON12,
            FifoNumber::Fifo13 => SFRAddress::C1FIFOCON13,
            FifoNumber::Fifo14 => SFRAddress::C1FIFOCON14,
            FifoNumber::Fifo15 => SFRAddress::C1FIFOCON15,
            FifoNumber::Fifo16 => SFRAddress::C1FIFOCON16,
            FifoNumber::Fifo17 => SFRAddress::C1FIFOCON17,
            FifoNumber::Fifo18 => SFRAddress::C1FIFOCON18,
            FifoNumber::Fifo19 => SFRAddress::C1FIFOCON19,
            FifoNumber::Fifo20 => SFRAddress::C1FIFOCON20,
            FifoNumber::Fifo21 => SFRAddress::C1FIFOCON21,
            FifoNumber::Fifo22 => SFRAddress::C1FIFOCON22,
            FifoNumber::Fifo23 => SFRAddress::C1FIFOCON23,
            FifoNumber::Fifo24 => SFRAddress::C1FIFOCON24,
            FifoNumber::Fifo25 => SFRAddress::C1FIFOCON25,
            FifoNumber::Fifo26 => SFRAddress::C1FIFOCON26,
            FifoNumber::Fifo27 => SFRAddress::C1FIFOCON27,
            FifoNumber::Fifo28 => SFRAddress::C1FIFOCON28,
            FifoNumber::Fifo29 => SFRAddress::C1FIFOCON29,
            FifoNumber::Fifo30 => SFRAddress::C1FIFOCON30,
            FifoNumber::Fifo31 => SFRAddress::C1FIFOCON31,
        }
    }

    fn get_address_for(index: FifoNumber) -> (r: SFRAddress) {
        match index {
            FifoNumber::Fifo1 => SFRAddress::C1FIFOCON1,
            FifoNumber::Fifo2 => SFRAddress::C1FIFOCON2,
            FifoNumber::Fifo3 => SFRAddress::C1FIFOCON3,
            FifoNumber::Fifo4 => SFRAddress::C1FIFOCON4,
            FifoNumber::Fifo5 => SFRAddress::C1FIFOCON5,
            FifoNumber::Fifo6 => SFRAddress::C1FIFOCON6,
            FifoNumber::Fifo7 => SFRAddress::C1FIFOCON7,
            FifoNumber::Fifo8 => SFRAddress::C1FIFOCON8,
            FifoNumber::Fifo9 => SFRAddress::C1FIFOCON9,
            FifoNumber::Fifo10 => SFRAddress::C1FIFOCON10,
            FifoNumber::Fifo11 => SFRAddress::C1FIFOCON11,
            FifoNumber::Fifo12 => SFRAddress::C1FIFOCON12,
            FifoNumber::Fifo13 => SFRAddress::C1FIFOCON13,
            FifoNumber::Fifo14 => SFRAddress::C1FIFOCON14,
            FifoNumber::Fifo15 => SFRAddress::C1FIFOCON15,
            FifoNumber::Fifo16 => SFRAddress::C1FIFOCON16,
            FifoNumber::Fifo17 => SFRAddress::C1FIFOCON17,
            FifoNumber::Fifo18 => SFRAddress::C1FIFOCON18,
            FifoNumber::Fifo19 => SFRAddress::C1FIFOCON19,
            FifoNumber::Fifo20 => SFRAddress::C1FIFOCON20,
            FifoNumber::Fifo21 => SFRAddress::C1FIFOCON21,
            FifoNumber::Fifo22 => SFRAddress::C1FIFOCON22,
            FifoNumber::Fifo23 => SFRAddress::C1FIFOCON23,
            FifoNumber::Fifo24 => SFRAddress::C1FIFOCON24,
            FifoNumber::Fifo25 => SFRAddress::C1FIFOCON25,
            FifoNumber::Fifo26 => SFRAddress::C1FIFOCON26,
            FifoNumber::Fifo27 => SFRAddress::C1FIFOCON27,
            FifoNumber::Fifo28 => SFRAddress::C1FIFOCON28,
            FifoNumber::Fifo29 => SFRAddress::C1FIFOCON29,
            FifoNumber::Fifo30 => SFRAddress::C1FIFOCON30,
            FifoNumber::Fifo31 => SFRAddress::C1FIFOCON31,
        }
    }
}

impl RepeatedRegister for FifoStatusRegister {
    type Index = FifoNumber;

    open spec fn spec_address_for(index: FifoNumber) -> SFRAddress {
        match index {
            FifoNumber::Fifo1 => SFRAddress::C1FIFOSTA1,
            FifoNumber::Fifo2 => SFRAddress::C1FIFOSTA2,
            FifoNumber::Fifo3 => SFRAddress::C1FIFOSTA3,
            FifoNumber::Fifo4 => SFRAddress::C1FIFOSTA4,
            FifoNumber::Fifo5 => SFRAddress::C1FIFOSTA5,
            FifoNumber::Fifo6 => SFRAddress::C1FIFOSTA6,
            FifoNumber::Fifo7 => SFRAddress::C1FIFOSTA7,
            FifoNumber::Fifo8 => SFRAddress::C1FIFOSTA8,
            FifoNumber::Fifo9 => SFRAddress::C1FIFOSTA9,
            FifoNumber::Fifo10 => SFRAddress::C1FIFOSTA10,
            FifoNumber::Fifo11 => SFRAddress::C1FIFOSTA11,
            FifoNumber::Fifo12 => SFRAddress::C1FIFOSTA12,
            FifoNumber::Fifo13 => SFRAddress::C1FIFOSTA13,
            FifoNumber::Fifo14 => SFRAddress::C1FIFOSTA14,
            FifoNumber::Fifo15 => SFRAddress::C1FIFOSTA15,
            FifoNumber::Fifo16 => SFRAddress::C1FIFOSTA16,
            FifoNumber::Fifo17 => SFRAddress::C1FIFOSTA17,
            FifoNumber::Fifo18 => SFRAddress::C1FIFOSTA18,
            FifoNumber::Fifo19 => SFRAddress::C1FIFOSTA19,
            FifoNumber::Fifo20 => SFRAddress::C1FIFOSTA20,
            FifoNumber::Fifo21 => SFRAddress::C1FIFOSTA21,
            FifoNumber::Fifo22 => SFRAddress::C1FIFOSTA22,
            FifoNumber::Fifo23 => SFRAddress::C1FIFOSTA23,
            FifoNumber::Fifo24 => SFRAddress::C1FIFOSTA24,
            FifoNumber::Fifo25 => SFRAddress::C1FIFOSTA25,
            FifoNumber::Fifo26 => SFRAddress::C1FIFOSTA26,
            FifoNumber::Fifo27 => SFRAddress::C1FIFOSTA27,
            FifoNumber::Fifo28 => SFRAddress::C1FIFOSTA28,
            FifoNumber::Fifo29 => SFRAddress::C1FIFOSTA29,
            FifoNumber::Fifo30 => SFRAddress::C1FIFOSTA30,
            FifoNumber::Fifo31 => SFRAddress::C1FIFOSTA31,
        }
    }

    fn get_address_for(index: FifoNumber) -> (r: SFRAddress) {
        match index {
            FifoNumber::Fifo1 => SFRAddress::C1FIFOSTA1,
            FifoNumber::Fifo2 => SFRAddress::C1FIFOSTA2,
            FifoNumber::Fifo3 => SFRAddress::C1FIFOSTA3,
            FifoNumber::Fifo4 => SFRAddress::C1FIFOSTA4,
            FifoNumber::Fifo5 => SFRAddress::C1FIFOSTA5,
            FifoNumber::Fifo6 => SFRAddress::C1FIFOSTA6,
            FifoNumber::Fifo7 => SFRAddress::C1FIFOSTA7,
            FifoNumber::Fifo8 => SFRAddress::C1FIFOSTA8,
            FifoNumber::Fifo9 => SFRAddress::C1FIFOSTA9,
            FifoNumber::Fifo10 => SFRAddress::C1FIFOSTA10,
            FifoNumber::Fifo11 => SFRAddress::C1FIFOSTA11,
            FifoNumber::Fifo12 => SFRAddress::C1FIFOSTA12,
            FifoNumber::Fifo13 => SFRAddress::C1FIFOSTA13,
            FifoNumber::Fifo14 => SFRAddress::C1FIFOSTA14,
            FifoNumber::Fifo15 => SFRAddress::C1FIFOSTA15,
            FifoNumber::Fifo16 => SFRAddress::C1FIFOSTA16,
            FifoNumber::Fifo17 => SFRAddress::C1FIFOSTA17,
            FifoNumber::Fifo18 => SFRAddress::C1FIFOSTA18,
            FifoNumber::Fifo19 => SFRAddress::C1FIFOSTA19,
            FifoNumber::Fifo20 => SFRAddress::C1FIFOSTA20,
            FifoNumber::Fifo21 => SFRAddress::C1FIFOSTA21,
            FifoNumber::Fifo22 => SFRAddress::C1FIFOSTA22,
            FifoNumber::Fifo23 => SFRAddress::C1FIFOSTA23,
            FifoNumber::Fifo24 => SFRAddress::C1FIFOSTA24,
            FifoNumber::Fifo25 => SFRAddress::C1FIFOSTA25,
            FifoNumber::Fifo26 => SFRAddress::C1FIFOSTA26,
            FifoNumber::Fifo27 => SFRAddress::C1FIFOSTA27,
            FifoNumber::Fifo28 => SFRAddress::C1FIFOSTA28,
            FifoNumber::Fifo29 => SFRAddress::C1FIFOSTA29,
            FifoNumber::Fifo30 => SFRAddress::C1FIFOSTA30,
            FifoNumber::Fifo31 => SFRAddress::C1FIFOSTA31,
        }
    }
}

/// The control, status and user address registers of FIFO `n` sit at
/// `0x50 + 12n`, `0x54 + 12n` and `0x58 + 12n`: one address for each index.
pub proof fn lemma_fifo_register_addresses(n: FifoNumber)
    ensures
        FifoControlRegister::spec_address_for(n).spec_address() == 0x50 + 12 * n.spec_value(),
        FifoStatusRegister::spec_address_for(n).spec_address() == 0x54 + 12 * n.spec_value(),
        UserAddressRegister::spec_address_for(UserAddressKind::Fifo(n)).spec_address() == 0x58 + 12
            * n.spec_value(),
{
    match n {
        FifoNumber::Fifo1 => {},
        FifoNumber::Fifo2 => {},
        FifoNumber::Fifo3 => {},
        FifoNumber::Fifo4 => {},
        FifoNumber::Fifo5 => {},
        FifoNumber::Fifo6 => {},
        FifoNumber::Fifo7 => {},
        FifoNumber::Fifo8 => {},
        FifoNumber::Fifo9 => {},
        FifoNumber::Fifo10 => {},
        FifoNumber::Fifo11 => {},
        FifoNumber::Fifo12 => {},
        FifoNumber::Fifo13 => {},
        FifoNumber::Fifo14 => {},
        FifoNumber::Fifo15 => {},
        FifoNumber::Fifo16 => {},
        FifoNumber::Fifo17 => {},
        FifoNumber::Fifo18 => {},
        FifoNumber::Fifo19 => {},
        FifoNumber::Fifo20 => {},
        FifoNumber::Fifo21 => {},
        FifoNumber::Fifo22 => {},
        FifoNumber::Fifo23 => {},
        FifoNumber::Fifo24 => {},
        FifoNumber::Fifo25 => {},
        FifoNumber::Fifo26 => {},
        FifoNumber::Fifo27 => {},
        FifoNumber::Fifo28 => {},
        FifoNumber::Fifo29 => {},
        FifoNumber::Fifo30 => {},
        FifoNumber::Fifo31 => {},
    }
}

} // verus!
