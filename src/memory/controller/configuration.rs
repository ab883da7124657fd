//! Controller configuration registers: mode, bit timing, delay compensation
//! and the time base.
use vstd::prelude::*;

use crate::bits::{field, flag, get_field, get_flag, put_field, put_flag, with_field, with_flag};
use crate::memory::{Register, RegisterValue, SFRAddress};

verus! {

/// A raw field value that names no variant of the expected enumeration.
#[derive(Clone, Copy, Debug, PartialEq, Eq, Structural)]
pub struct InvalidValue {
    pub number: u8,
}

/// Number of data bits matched by filters on standard frames.
#[derive(Clone, Copy, Debug, PartialEq, Eq, Structural)]
pub enum DataBits {
    Bits1,
    Bits2,
    Bits3,
    Bits4,
    Bits5,
    Bits6,
    Bits7,
    Bits8,
    Bits9,
    Bits10,
    Bits11,
    Bits12,
    Bits13,
    Bits14,
    Bits15,
    Bits16,
    Bits17,
    Bits18,
}

impl DataBits {
    /// The value that encodes this variant in its register field.
    pub open spec fn spec_value(self) -> u8 {
        match self {
            DataBits::Bits1 => 1,
            DataBits::Bits2 => 2,
            DataBits::Bits3 => 3,
            DataBits::Bits4 => 4,
            DataBits::Bits5 => 5,
            DataBits::Bits6 => 6,
            DataBits::Bits7 => 7,
            DataBits::Bits8 => 8,
            DataBits::Bits9 => 9,
            DataBits::Bits10 => 10,
            DataBits::Bits11 => 11,
            DataBits::Bits12 => 12,
            DataBits::Bits13 => 13,
            DataBits::Bits14 => 14,
            DataBits::Bits15 => 15,
            DataBits::Bits16 => 16,
            DataBits::Bits17 => 17,
            DataBits::Bits18 => 18,
        }
    }

    pub fn value(self) -> (r: u8)
        ensures
            r == self.spec_value(),
    {
        match self {
            DataBits::Bits1 => 1,
            DataBits::Bits2 => 2,
            DataBits::Bits3 => 3,
            DataBits::Bits4 => 4,
            DataBits::Bits5 => 5,
            DataBits::Bits6 => 6,
            DataBits::Bits7 => 7,
            DataBits::Bits8 => 8,
            DataBits::Bits9 => 9,
            DataBits::Bits10 => 10,
            DataBits::Bits11 => 11,
            DataBits::Bits12 => 12,
            DataBits::Bits13 => 13,
            DataBits::Bits14 => 14,
            DataBits::Bits15 => 15,
            DataBits::Bits16 => 16,
            DataBits::Bits17 => 17,
            DataBits::Bits18 => 18,
        }
    }

    /// The variant that the raw value `v` encodes, if any.
    pub open spec fn spec_from_value(v: u8) -> Option<DataBits> {
        if v == 1 {
            Some(DataBits::Bits1)
        } else if v == 2 {
            Some(DataBits::Bits2)
        } else if v == 3 {
            Some(DataBits::Bits3)
        } else if v == 4 {
            Some(DataBits::Bits4)
        } else if v == 5 {
            Some(DataBits::Bits5)
        } else if v == 6 {
            Some(DataBits::Bits6)
        } else if v == 7 {
            Some(DataBits::Bits7)
        } else if v == 8 {
            Some(DataBits::Bits8)
        } else if v == 9 {
            Some(DataBits::Bits9)
        } else if v == 10 {
            Some(DataBits::Bits10)
        } else if v == 11 {
            Some(DataBits::Bits11)
        } else if v == 12 {
            Some(DataBits::Bits12)
        } else if v == 13 {
            Some(DataBits::Bits13)
        } else if v == 14 {
            Some(DataBits::Bits14)
        } else if v == 15 {
            Some(DataBits::Bits15)
        } else if v == 16 {
            Some(DataBits::Bits16)
        } else if v == 17 {
            Some(DataBits::Bits17)
        } else if v == 18 {
            Some(DataBits::Bits18)
        } else {
            None
        }
    }

    /// The variant that `v` encodes, if any.
    pub fn try_from_value(v: u8) -> (r: Option<DataBits>)
        ensures
            r == Self::spec_from_value(v),
            r matches Some(x) ==> x.spec_value() == v,
    {
        match v {
            1 => Some(DataBits::Bits1),
            2 => Some(DataBits::Bits2),
            3 => Some(DataBits::Bits3),
            4 => Some(DataBits::Bits4),
            5 => Some(DataBits::Bits5),
            6 => Some(DataBits::Bits6),
            7 => Some(DataBits::Bits7),
            8 => Some(DataBits::Bits8),
            9 => Some(DataBits::Bits9),
            10 => Some(DataBits::Bits10),
            11 => Some(DataBits::Bits11),
            12 => Some(DataBits::Bits12),
            13 => Some(DataBits::Bits13),
            14 => Some(DataBits::Bits14),
            15 => Some(DataBits::Bits15),
            16 => Some(DataBits::Bits16),
            17 => Some(DataBits::Bits17),
            18 => Some(DataBits::Bits18),

            _ => None,
        }
    }
}

/// Wake-up filter time selection.
#[derive(Clone, Copy, Debug, PartialEq, Eq, Structural)]
pub enum WakeupFilterTime {
    T00Filter,
    T01Filter,
    T10Filter,
    T11Filter,
}

impl WakeupFilterTime {
    /// The value that encodes this variant in its register field.
    pub open spec fn spec_value(self) -> u8 {
        match self {
            WakeupFilterTime::T00Filter => 0,
            WakeupFilterTime::T01Filter => 1,
            WakeupFilterTime::T10Filter => 2,
            WakeupFilterTime::T11Filter => 3,
        }
    }

    pub fn value(self) -> (r: u8)
        ensures
            r == self.spec_value(),
    {
        match self {
            WakeupFilterTime::T00Filter => 0,
            WakeupFilterTime::T01Filter => 1,
            WakeupFilterTime::T10Filter => 2,
            WakeupFilterTime::T11Filter => 3,
        }
    }

    /// The variant that the raw value `v` encodes, if any.
    pub open spec fn spec_from_value(v: u8) -> Option<WakeupFilterTime> {
        if v == 0 {
            Some(WakeupFilterTime::T00Filter)
        } else if v == 1 {
            Some(WakeupFilterTime::T01Filter)
        } else if v == 2 {
            Some(WakeupFilterTime::T10Filter)
        } else if v == 3 {
            Some(WakeupFilterTime::T11Filter)
        } else {
            None
        }
    }

    /// The variant that `v` encodes, if any.
    pub fn try_from_value(v: u8) -> (r: Option<WakeupFilterTime>)
        ensures
            r == Self::spec_from_value(v),
            r matches Some(x) ==> x.spec_value() == v,
    {
        match v {
            0 => Some(WakeupFilterTime::T00Filter),
            1 => Some(WakeupFilterTime::T01Filter),
            2 => Some(WakeupFilterTime::T10Filter),
            3 => Some(WakeupFilterTime::T11Filter),

            _ => None,
        }
    }
}

/// Operating mode of the controller.
#[derive(Clone, Copy, Debug, PartialEq, Eq, Structural)]
pub enum OperationMode {
    NormalCanFD,
    Sleep,
    InternalLoopback,
    ListenOnly,
    Configuration,
    ExternalLoopback,
    NormalCan2,
    Restricted,
    Unknown,
}

impl OperationMode {
    /// The value that encodes this variant in its register field.
    pub open spec fn spec_value(self) -> u8 {
        match self {
            OperationMode::NormalCanFD => 0,
            OperationMode::Sleep => 1,
            OperationMode::InternalLoopback => 2,
            OperationMode::ListenOnly => 3,
            OperationMode::Configuration => 4,
            OperationMode::ExternalLoopback => 5,
            OperationMode::NormalCan2 => 6,
            OperationMode::Restricted => 7,
            OperationMode::Unknown => 255,
        }
    }

    pub fn value(self) -> (r: u8)
        ensures
            r == self.spec_value(),
    {
        match self {
            OperationMode::NormalCanFD => 0,
            OperationMode::Sleep => 1,
            OperationMode::InternalLoopback => 2,
            OperationMode::ListenOnly => 3,
            OperationMode::Configuration => 4,
            OperationMode::ExternalLoopback => 5,
            OperationMode::NormalCan2 => 6,
            OperationMode::Restricted => 7,
            OperationMode::Unknown => 255,
        }
    }

    /// The variant that the raw value `v` encodes, if any.
    pub open spec fn spec_from_value(v: u8) -> Option<OperationMode> {
        if v == 0 {
            Some(OperationMode::NormalCanFD)
        } else if v == 1 {
            Some(OperationMode::Sleep)
        } else if v == 2 {
            Some(OperationMode::InternalLoopback)
        } else if v == 3 {
            Some(OperationMode::ListenOnly)
        } else if v == 4 {
            Some(OperationMode::Configuration)
        } else if v == 5 {
            Some(OperationMode::ExternalLoopback)
        } else if v == 6 {
            Some(OperationMode::NormalCan2)
        } else if v == 7 {
            Some(OperationMode::Restricted)
        } else if v == 255 {
            Some(OperationMode::Unknown)
        } else {
            None
        }
    }

    /// The variant that `v` encodes, if any.
    pub fn try_from_value(v: u8) -> (r: Option<OperationMode>)
        ensures
            r == Self::spec_from_value(v),
            r matches Some(x) ==> x.spec_value() == v,
    {
        match v {
            0 => Some(OperationMode::NormalCanFD),
            1 => Some(OperationMode::Sleep),
            2 => Some(OperationMode::InternalLoopback),
            3 => Some(OperationMode::ListenOnly),
            4 => Some(OperationMode::Configuration),
            5 => Some(OperationMode::ExternalLoopback),
            6 => Some(OperationMode::NormalCan2),
            7 => Some(OperationMode::Restricted),
            255 => Some(OperationMode::Unknown),

            _ => None,
        }
    }
}

/// Delay between two transmissions, in arbitration bit times.
#[derive(Clone, Copy, Debug, PartialEq, Eq, Structural)]
pub enum InterTransmissionDelay {
    NoDelay,
    Delay2,
    Delay4,
    Delay8,
    Delay16,
    Delay32,
    Delay64,
    Delay128,
    Delay256,
    Delay512,
    Delay1024,
    Delay2048,
    Delay4096,
}

impl InterTransmissionDelay {
    /// The value that encodes this variant in its register field.
    pub open spec fn spec_value(self) -> u8 {
        match self {
            InterTransmissionDelay::NoDelay => 0,
            InterTransmissionDelay::Delay2 => 1,
            InterTransmissionDelay::Delay4 => 2,
            InterTransmissionDelay::Delay8 => 3,
            InterTransmissionDelay::Delay16 => 4,
            InterTransmissionDelay::Delay32 => 5,
            InterTransmissionDelay::Delay64 => 6,
            InterTransmissionDelay::Delay128 => 7,
            InterTransmissionDelay::Delay256 => 8,
            InterTransmissionDelay::Delay512 => 9,
            InterTransmissionDelay::Delay1024 => 10,
            InterTransmissionDelay::Delay2048 => 11,
            InterTransmissionDelay::Delay4096 => 12,
        }
    }

    pub fn value(self) -> (r: u8)
        ensures
            r == self.spec_value(),
    {
        match self {
            InterTransmissionDelay::NoDelay => 0,
            InterTransmissionDelay::Delay2 => 1,
            InterTransmissionDelay::Delay4 => 2,
            InterTransmissionDelay::Delay8 => 3,
            InterTransmissionDelay::Delay16 => 4,
            InterTransmissionDelay::Delay32 => 5,
            InterTransmissionDelay::Delay64 => 6,
            InterTransmissionDelay::Delay128 => 7,
            InterTransmissionDelay::Delay256 => 8,
            InterTransmissionDelay::Delay512 => 9,
            InterTransmissionDelay::Delay1024 => 10,
            InterTransmissionDelay::Delay2048 => 11,
            InterTransmissionDelay::Delay4096 => 12,
        }
    }

    /// The variant that the raw value `v` encodes, if any.
    pub open spec fn spec_from_value(v: u8) -> Option<InterTransmissionDelay> {
        if v == 0 {
            Some(InterTransmissionDelay::NoDelay)
        } else if v == 1 {
            Some(InterTransmissionDelay::Delay2)
        } else if v == 2 {
            Some(InterTransmissionDelay::Delay4)
        } else if v == 3 {
            Some(InterTransmissionDelay::Delay8)
        } else if v == 4 {
            Some(InterTransmissionDelay::Delay16)
        } else if v == 5 {
            Some(InterTransmissionDelay::Delay32)
        } else if v == 6 {
            Some(InterTransmissionDelay::Delay64)
        } else if v == 7 {
            Some(InterTransmissionDelay::Delay128)
        } else if v == 8 {
            Some(InterTransmissionDelay::Delay256)
        } else if v == 9 {
            Some(InterTransmissionDelay::Delay512)
        } else if v == 10 {
            Some(InterTransmissionDelay::Delay1024)
        } else if v == 11 {
            Some(InterTransmissionDelay::Delay2048)
        } else if v == 12 {
            Some(InterTransmissionDelay::Delay4096)
        } else {
            None
        }
    }

    /// The variant that `v` encodes, if any.
    pub fn try_from_value(v: u8) -> (r: Option<InterTransmissionDelay>)
        ensures
            r == Self::spec_from_value(v),
            r matches Some(x) ==> x.spec_value() == v,
    {
        match v {
            0 => Some(InterTransmissionDelay::NoDelay),
            1 => Some(InterTransmissionDelay::Delay2),
            2 => Some(InterTransmissionDelay::Delay4),
            3 => Some(InterTransmissionDelay::Delay8),
            4 => Some(InterTransmissionDelay::Delay16),
            5 => Some(InterTransmissionDelay::Delay32),
            6 => Some(InterTransmissionDelay::Delay64),
            7 => Some(InterTransmissionDelay::Delay128),
            8 => Some(InterTransmissionDelay::Delay256),
            9 => Some(InterTransmissionDelay::Delay512),
            10 => Some(InterTransmissionDelay::Delay1024),
            11 => Some(InterTransmissionDelay::Delay2048),
            12 => Some(InterTransmissionDelay::Delay4096),

            _ => None,
        }
    }
}

/// Transmitter delay compensation mode; 3 also reads as automatic.
#[derive(Clone, Copy, Debug, PartialEq, Eq, Structural)]
pub enum TransmitterDelayCompensationMode {
    Disabled,
    Manual,
    Automatic,
}

impl TransmitterDelayCompensationMode {
    /// The value that encodes this variant in its register field.
    pub open spec fn spec_value(self) -> u8 {
        match self {
            TransmitterDelayCompensationMode::Disabled => 0,
            TransmitterDelayCompensationMode::Manual => 1,
            TransmitterDelayCompensationMode::Automatic => 2,
        }
    }

    pub fn value(self) -> (r: u8)
        ensures
            r == self.spec_value(),
    {
        match self {
            TransmitterDelayCompensationMode::Disabled => 0,
            TransmitterDelayCompensationMode::Manual => 1,
            TransmitterDelayCompensationMode::Automatic => 2,
        }
    }

    /// The variant that the raw value `v` encodes, if any.
    pub open spec fn spec_from_value(v: u8) -> Option<TransmitterDelayCompensationMode> {
        if v == 0 {
            Some(TransmitterDelayCompensationMode::Disabled)
        } else if v == 1 {
            Some(TransmitterDelayCompensationMode::Manual)
        } else if v == 2 {
            Some(TransmitterDelayCompensationMode::Automatic)
        } else if v == 3 {
            Some(TransmitterDelayCompensationMode::Automatic)
        } else {
            None
        }
    }

    /// The variant that `v` encodes, if any.
    pub fn try_from_value(v: u8) -> (r: Option<TransmitterDelayCompensationMode>)
        ensures
            r == Self::spec_from_value(v),
            r matches Some(x) ==> x.spec_value() == v || v == 3,
    {
        match v {
            0 => Some(TransmitterDelayCompensationMode::Disabled),
            1 => Some(TransmitterDelayCompensationMode::Manual),
            2 => Some(TransmitterDelayCompensationMode::Automatic),
            3 => Some(TransmitterDelayCompensationMode::Automatic),
            _ => None,
        }
    }
}

#[derive(Clone, Copy, Debug, PartialEq, Eq, Structural)]
pub struct CanControlRegister(pub u32);

impl CanControlRegister {
    pub fn isocrcen(&self) -> (r: bool)
        ensures
            r == flag(self.0, 5),
    {
        get_flag(self.0, 5)
    }

    pub fn set_isocrcen(&mut self, value: bool)
        ensures
            final(self).0 == with_flag(old(self).0, 5, value),
    {
        self.0 = put_flag(self.0, 5, value);
    }

    pub fn pxedis(&self) -> (r: bool)
        ensures
            r == flag(self.0, 6),
    {
        get_flag(self.0, 6)
    }

    pub fn set_pxedis(&mut self, value: bool)
        ensures
            final(self).0 == with_flag(old(self).0, 6, value),
    {
        self.0 = put_flag(self.0, 6, value);
    }

    pub fn wakfil(&self) -> (r: bool)
        ensures
            r == flag(self.0, 8),
    {
        get_flag(self.0, 8)
    }

    pub fn set_wakfil(&mut self, value: bool)
        ensures
            final(self).0 == with_flag(old(self).0, 8, value),
    {
        self.0 = put_flag(self.0, 8, value);
    }

    pub fn busy(&self) -> (r: bool)
        ensures
            r == flag(self.0, 11),
    {
        get_flag(self.0, 11)
    }

    pub fn brsdis(&self) -> (r: bool)
        ensures
            r == flag(self.0, 12),
    {
        get_flag(self.0, 12)
    }

    pub fn set_brsdis(&mut self, value: bool)
        ensures
            final(self).0 == with_flag(old(self).0, 12, value),
    {
        self.0 = put_flag(self.0, 12, value);
    }

    pub fn rtxat(&self) -> (r: bool)
        ensures
            r == flag(self.0, 16),
    {
        get_flag(self.0, 16)
    }

    pub fn set_rtxat(&mut self, value: bool)
        ensures
            final(self).0 == with_flag(old(self).0, 16, value),
    {
        self.0 = put_flag(self.0, 16, value);
    }

    pub fn esigm(&self) -> (r: bool)
        ensures
            r == flag(self.0, 17),
    {
        get_flag(self.0, 17)
    }

    pub fn set_esigm(&mut self, value: bool)
        ensures
            final(self).0 == with_flag(old(self).0, 17, value),
    {
        self.0 = put_flag(self.0, 17, value);
    }

    pub fn serr2lom(&self) -> (r: bool)
        ensures
            r == flag(self.0, 18),
    {
        get_flag(self.0, 18)
    }

    pub fn set_serr2lom(&mut self, value: bool)
        ensures
            final(self).0 == with_flag(old(self).0, 18, value),
    {
        self.0 = put_flag(self.0, 18, value);
    }

    pub fn stef(&self) -> (r: bool)
        ensures
            r == flag(self.0, 19),
    {
        get_flag(self.0, 19)
    }

    pub fn set_stef(&mut self, value: bool)
        ensures
            final(self).0 == with_flag(old(self).0, 19, value),
    {
        self.0 = put_flag(self.0, 19, value);
    }

    pub fn txqen(&self) -> (r: bool)
        ensures
            r == flag(self.0, 20),
    {
        get_flag(self.0, 20)
    }

    pub fn set_txqen(&mut self, value: bool)
        ensures
            final(self).0 == with_flag(old(self).0, 20, value),
    {
        self.0 = put_flag(self.0, 20, value);
    }

    pub fn abat(&self) -> (r: bool)
        ensures
            r == flag(self.0, 27),
    {
        get_flag(self.0, 27)
    }

    pub fn set_abat(&mut self, value: bool)
        ensures
            final(self).0 == with_flag(old(self).0, 27, value),
    {
        self.0 = put_flag(self.0, 27, value);
    }
}

impl RegisterValue for CanControlRegister {
    open spec fn word(&self) -> u32 {
        self.0
    }

    fn from_word(word: u32) -> (r: Self) {
        CanControlRegister(word)
    }

    fn to_word(&self) -> (r: u32) {
        self.0
    }
}

impl Register for CanControlRegister {
    open spec fn spec_address() -> SFRAddress {
        SFRAddress::C1CON
    }

    fn get_address() -> (r: SFRAddress) {
        SFRAddress::C1CON
    }
}

#[derive(Clone, Copy, Debug, PartialEq, Eq, Structural)]
pub struct NominalBitTimeConfigurationRegister(pub u32);

impl NominalBitTimeConfigurationRegister {
    pub fn sjw(&self) -> (r: u8)
        ensures
            r == field(self.0, 0, 7) as u8,
    {
        get_field(self.0, 0, 7) as u8
    }

    pub fn set_sjw(&mut self, value: u8)
        ensures
            final(self).0 == with_field(old(self).0, 0, 7, value as u32),
    {
        self.0 = put_field(self.0, 0, 7, value as u32);
    }

    pub fn tseg2(&self) -> (r: u8)
        ensures
            r == field(self.0, 8, 7) as u8,
    {
        get_field(self.0, 8, 7) as u8
    }

    pub fn set_tseg2(&mut self, value: u8)
        ensures
            final(self).0 == with_field(old(self).0, 8, 7, value as u32),
    {
        self.0 = put_field(self.0, 8, 7, value as u32);
    }

    pub fn tseg1(&self) -> (r: u8)
        ensures
            r == field(self.0, 16, 8) as u8,
    {
        get_field(self.0, 16, 8) as u8
    }

    pub fn set_tseg1(&mut self, value: u8)
        ensures
            final(self).0 == with_field(old(self).0, 16, 8, value as u32),
    {
        self.0 = put_field(self.0, 16, 8, value as u32);
    }

    pub fn brp(&self) -> (r: u8)
        ensures
            r == field(self.0, 24, 8) as u8,
    {
        get_field(self.0, 24, 8) as u8
    }

    pub fn set_brp(&mut self, value: u8)
        ensures
            final(self).0 == with_field(old(self).0, 24, 8, value as u32),
    {
        self.0 = put_field(self.0, 24, 8, value as u32);
    }
}

impl RegisterValue for NominalBitTimeConfigurationRegister {
    open spec fn word(&self) -> u32 {
        self.0
    }

    fn from_word(word: u32) -> (r: Self) {
        NominalBitTimeConfigurationRegister(word)
    }

    fn to_word(&self) -> (r: u32) {
        self.0
    }
}

impl Register for NominalBitTimeConfigurationRegister {
    open spec fn spec_address() -> SFRAddress {
        SFRAddress::C1NBTCFG
    }

    fn get_address() -> (r: SFRAddress) {
        SFRAddress::C1NBTCFG
    }
}

#[derive(Clone, Copy, Debug, PartialEq, Eq, Structural)]
pub struct DataBitTimeConfigurationRegister(pub u32);

impl DataBitTimeConfigurationRegister {
    pub fn sjw(&self) -> (r: u8)
        ensures
            r == field(self.0, 0, 4) as u8,
    {
        get_field(self.0, 0, 4) as u8
    }

    pub fn set_sjw(&mut self, value: u8)
        ensures
            final(self).0 == with_field(old(self).0, 0, 4, value as u32),
    {
        self.0 = put_field(self.0, 0, 4, value as u32);
    }

    pub fn tseg2(&self) -> (r: u8)
        ensures
            r == field(self.0, 8, 4) as u8,
    {
        get_field(self.0, 8, 4) as u8
    }

    pub fn set_tseg2(&mut self, value: u8)
        ensures
            final(self).0 == with_field(old(self).0, 8, 4, value as u32),
    {
        self.0 = put_field(self.0, 8, 4, value as u32);
    }

    pub fn tseg1(&self) -> (r: u8)
        ensures
            r == field(self.0, 16, 5) as u8,
    {
        get_field(self.0, 16, 5) as u8
    }

    pub fn set_tseg1(&mut self, value: u8)
        ensures
            final(self).0 == with_field(old(self).0, 16, 5, value as u32),
    {
        self.0 = put_field(self.0, 16, 5, value as u32);
    }

    pub fn brp(&self) -> (r: u8)
        ensures
            r == field(self.0, 24, 8) as u8,
    {
        get_field(self.0, 24, 8) as u8
    }

    pub fn set_brp(&mut self, value: u8)
        ensures
            final(self).0 == with_field(old(self).0, 24, 8, value as u32),
    {
        self.0 = put_field(self.0, 24, 8, value as u32);
    }
}

impl RegisterValue for DataBitTimeConfigurationRegister {
    open spec fn word(&self) -> u32 {
        self.0
    }

    fn from_word(word: u32) -> (r: Self) {
        DataBitTimeConfigurationRegister(word)
    }

    fn to_word(&self) -> (r: u32) {
        self.0
    }
}

impl Register for DataBitTimeConfigurationRegister {
    open spec fn spec_address() -> SFRAddress {
        SFRAddress::C1DBTCFG
    }

    fn get_address() -> (r: SFRAddress) {
        SFRAddress::C1DBTCFG
    }
}

#[derive(Clone, Copy, Debug, PartialEq, Eq, Structural)]
pub struct TransmitterDelayCompensationRegister(pub u32);

impl TransmitterDelayCompensationRegister {
    pub fn tdcv(&self) -> (r: u8)
        ensures
            r == field(self.0, 0, 6) as u8,
    {
        get_field(self.0, 0, 6) as u8
    }

    pub fn set_tdcv(&mut self, value: u8)
        ensures
            final(self).0 == with_field(old(self).0, 0, 6, value as u32),
    {
        self.0 = put_field(self.0, 0, 6, value as u32);
    }

    pub fn tdco(&self) -> (r: u8)
        ensures
            r == field(self.0, 8, 6) as u8,
    {
        get_field(self.0, 8, 6) as u8
    }

    pub fn set_tdco(&mut self, value: u8)
        ensures
            final(self).0 == with_field(old(self).0, 8, 6, value as u32),
    {
        self.0 = put_field(self.0, 8, 6, value as u32);
    }

    pub fn sid11en(&self) -> (r: bool)
        ensures
            r == flag(self.0, 24),
    {
        get_flag(self.0, 24)
    }

    pub fn set_sid11en(&mut self, value: bool)
        ensures
            final(self).0 == with_flag(old(self).0, 24, value),
    {
        self.0 = put_flag(self.0, 24, value);
    }

    pub fn edgflten(&self) -> (r: bool)
        ensures
            r == flag(self.0, 25),
    {
        get_flag(self.0, 25)
    }

    pub fn set_edgflten(&mut self, value: bool)
        ensures
            final(self).0 == with_flag(old(self).0, 25, value),
    {
        self.0 = put_flag(self.0, 25, value);
    }
}

impl RegisterValue for TransmitterDelayCompensationRegister {
    open spec fn word(&self) -> u32 {
        self.0
    }

    fn from_word(word: u32) -> (r: Self) {
        TransmitterDelayCompensationRegister(word)
    }

    fn to_word(&self) -> (r: u32) {
        self.0
    }
}

impl Register for TransmitterDelayCompensationRegister {
    open spec fn spec_address() -> SFRAddress {
        SFRAddress::C1TDC
    }

    fn get_address() -> (r: SFRAddress) {
        SFRAddress::C1TDC
    }
}

#[derive(Clone, Copy, Debug, PartialEq, Eq, Structural)]
pub struct TimeBaseCounterRegister(pub u32);

impl TimeBaseCounterRegister {
    pub fn tbc(&self) -> (r: u32)
        ensures
            r == field(self.0, 0, 32),
    {
        get_field(self.0, 0, 32)
    }

    pub fn set_tbc(&mut self, value: u32)
        ensures
            final(self).0 == with_field(old(self).0, 0, 32, value),
    {
        self.0 = put_field(self.0, 0, 32, value);
    }
}

impl RegisterValue for TimeBaseCounterRegister {
    open spec fn word(&self) -> u32 {
        self.0
    }

    fn from_word(word: u32) -> (r: Self) {
        TimeBaseCounterRegister(word)
    }

    fn to_word(&self) -> (r: u32) {
        self.0
    }
}

impl Register for TimeBaseCounterRegister {
    open spec fn spec_address() -> SFRAddress {
        SFRAddress::C1TBC
    }

    fn get_address() -> (r: SFRAddress) {
        SFRAddress::C1TBC
    }
}

#[derive(Clone, Copy, Debug, PartialEq, Eq, Structural)]
pub struct TimeStampControlRegister(pub u32);

impl TimeStampControlRegister {
    pub fn tbcpre(&self) -> (r: u16)
        ensures
            r == field(self.0, 0, 10) as u16,
    {
        get_field(self.0, 0, 10) as u16
    }

    pub fn set_tbcpre(&mut self, value: u16)
        ensures
            final(self).0 == with_field(old(self).0, 0, 10, value as u32),
    {
        self.0 = put_field(self.0, 0, 10, value as u32);
    }

    pub fn tbcen(&self) -> (r: bool)
        ensures
            r == flag(self.0, 16),
    {
        get_flag(self.0, 16)
    }

    pub fn set_tbcen(&mut self, value: bool)
        ensures
            final(self).0 == with_flag(old(self).0, 16, value),
    {
        self.0 = put_flag(self.0, 16, value);
    }

    pub fn tseof(&self) -> (r: bool)
        ensures
            r == flag(self.0, 17),
    {
        get_flag(self.0, 17)
    }

    pub fn set_tseof(&mut self, value: bool)
        ensures
            final(self).0 == with_flag(old(self).0, 17, value),
    {
        self.0 = put_flag(self.0, 17, value);
    }

    pub fn tsres(&self) -> (r: bool)
        ensures
            r == flag(self.0, 18),
    {
        get_flag(self.0, 18)
    }

    pub fn set_tsres(&mut self, value: bool)
        ensures
            final(self).0 == with_flag(old(self).0, 18, value),
    {
        self.0 = put_flag(self.0, 18, value);
    }
}

impl RegisterValue for TimeStampControlRegister {
    open spec fn word(&self) -> u32 {
        self.0
    }

    fn from_word(word: u32) -> (r: Self) {
        TimeStampControlRegister(word)
    }

    fn to_word(&self) -> (r: u32) {
        self.0
    }
}

impl Register for TimeStampControlRegister {
    open spec fn spec_address() -> SFRAddress {
        SFRAddress::C1TSCON
    }

    fn get_address() -> (r: SFRAddress) {
        SFRAddress::C1TSCON
    }
}

/// The operating mode that a control word reports.
pub open spec fn reported_mode(word: u32) -> OperationMode {
    match OperationMode::spec_from_value(field(word, 21, 3) as u8) {
        Some(m) => m,
        None => OperationMode::Unknown,
    }
}

impl CanControlRegister {
    /// Number of data bits matched by filters; `Err` holds a raw value that
    /// names no width.
    pub fn dncnt(&self) -> (r: Result<DataBits, InvalidValue>)
        ensures
            r == (match DataBits::spec_from_value(field(self.0, 0, 5) as u8) {
                Some(d) => Ok(d),
                None => Err(InvalidValue { number: field(self.0, 0, 5) as u8 }),
            }),
            r matches Ok(d) ==> d.spec_value() == field(self.0, 0, 5),
    {
        let raw = get_field(self.0, 0, 5);
        proof {
            crate::bits::lemma_low_mask_values();
            crate::bits::lemma_field_bound(self.0, 0, 5);
        }
        match DataBits::try_from_value(raw as u8) {
            Some(d) => Ok(d),
            None => Err(InvalidValue { number: raw as u8 }),
        }
    }

    pub fn set_dncnt(&mut self, bits: DataBits)
        ensures
            final(self).0 == with_field(old(self).0, 0, 5, bits.spec_value() as u32),
    {
        self.0 = put_field(self.0, 0, 5, bits.value() as u32);
    }

    /// Wake-up filter time; every 2-bit value names one.
    pub fn wft(&self) -> (r: Result<WakeupFilterTime, InvalidValue>)
        ensures
            r matches Ok(w) && w.spec_value() == field(self.0, 9, 2),
    {
        let raw = get_field(self.0, 9, 2);
        proof {
            crate::bits::lemma_low_mask_values();
            crate::bits::lemma_field_bound(self.0, 9, 2);
        }
        match WakeupFilterTime::try_from_value(raw as u8) {
            Some(w) => Ok(w),
            None => Err(InvalidValue { number: raw as u8 }),
        }
    }

    pub fn set_wft(&mut self, filter: WakeupFilterTime)
        ensures
            final(self).0 == with_field(old(self).0, 9, 2, filter.spec_value() as u32),
    {
        self.0 = put_field(self.0, 9, 2, filter.value() as u32);
    }

    /// The operating mode the controller reports (OPMOD, bits 21 to 23).
    pub fn opmode(&self) -> (r: OperationMode)
        ensures
            r == reported_mode(self.0),
            r != OperationMode::Unknown,
            r.spec_value() == field(self.0, 21, 3),
    {
        let raw = get_field(self.0, 21, 3);
        proof {
            crate::bits::lemma_low_mask_values();
            crate::bits::lemma_field_bound(self.0, 21, 3);
        }
        match OperationMode::try_from_value(raw as u8) {
            Some(m) => m,
            None => OperationMode::Unknown,
        }
    }

    /// Requests an operating mode (REQOP, bits 24 to 26). The field holds
    /// the low three bits of the mode's value.
    pub fn set_opmode(&mut self, mode: OperationMode)
        ensures
            final(self).0 == with_field(old(self).0, 24, 3, mode.spec_value() as u32),
    {
        self.0 = put_field(self.0, 24, 3, mode.value() as u32);
    }

    /// Delay between transmissions; `Err` holds a raw value that names none.
    pub fn txbws(&self) -> (r: Result<InterTransmissionDelay, InvalidValue>)
        ensures
            r == (match InterTransmissionDelay::spec_from_value(field(self.0, 28, 4) as u8) {
                Some(d) => Ok(d),
                None => Err(InvalidValue { number: field(self.0, 28, 4) as u8 }),
            }),
            r matches Ok(d) ==> d.spec_value() == field(self.0, 28, 4),
    {
        let raw = get_field(self.0, 28, 4);
        proof {
            crate::bits::lemma_low_mask_values();
            crate::bits::lemma_field_bound(self.0, 28, 4);
        }
        match InterTransmissionDelay::try_from_value(raw as u8) {
            Some(d) => Ok(d),
            None => Err(InvalidValue { number: raw as u8 }),
        }
    }

    pub fn set_txbws(&mut self, delay: InterTransmissionDelay)
        ensures
            final(self).0 == with_field(old(self).0, 28, 4, delay.spec_value() as u32),
    {
        self.0 = put_field(self.0, 28, 4, delay.value() as u32);
    }
}

impl TransmitterDelayCompensationRegister {
    /// Compensation mode; the raw value 3 reads as automatic.
    pub fn tdcmod(&self) -> (r: Result<TransmitterDelayCompensationMode, InvalidValue>)
        ensures
            r matches Ok(m) && (m.spec_value() == field(self.0, 16, 2) || (field(self.0, 16, 2)
                == 3 && m == TransmitterDelayCompensationMode::Automatic)),
    {
        let raw = get_field(self.0, 16, 2);
        proof {
            crate::bits::lemma_low_mask_values();
            crate::bits::lemma_field_bound(self.0, 16, 2);
        }
        match TransmitterDelayCompensationMode::try_from_value(raw as u8) {
            Some(m) => Ok(m),
            None => Err(InvalidValue { number: raw as u8 }),
        }
    }

    pub fn set_tdcmod(&mut self, mode: TransmitterDelayCompensationMode)
        ensures
            final(self).0 == with_field(old(self).0, 16, 2, mode.spec_value() as u32),
    {
        self.0 = put_field(self.0, 16, 2, mode.value() as u32);
    }
}
} // verus!
