//! Registers of the chip itself: oscillator, pins, SPI CRC, ECC and device id.
use vstd::prelude::*;

use crate::bits::{field, flag, get_field, get_flag, put_field, put_flag, with_field, with_flag};
use crate::memory::{Register, RegisterValue, SFRAddress};

verus! {

#[derive(Clone, Copy, Debug, PartialEq, Eq, Structural)]
pub struct OscillatorControlRegister(pub u32);

impl OscillatorControlRegister {
    pub fn pllen(&self) -> (r: bool)
        ensures
            r == flag(self.0, 0),
    {
        get_flag(self.0, 0)
    }

    pub fn set_pllen(&mut self, value: bool)
        ensures
            final(self).0 == with_flag(old(self).0, 0, value),
    {
        self.0 = put_flag(self.0, 0, value);
    }

    pub fn oscdis(&self) -> (r: bool)
        ensures
            r == flag(self.0, 2),
    {
        get_flag(self.0, 2)
    }

    pub fn set_oscdis(&mut self, value: bool)
        ensures
            final(self).0 == with_flag(old(self).0, 2, value),
    {
        self.0 = put_flag(self.0, 2, value);
    }

    pub fn slckdiv(&self) -> (r: bool)
        ensures
            r == flag(self.0, 4),
    {
        get_flag(self.0, 4)
    }

    pub fn set_slckdiv(&mut self, value: bool)
        ensures
            final(self).0 == with_flag(old(self).0, 4, value),
    {
        self.0 = put_flag(self.0, 4, value);
    }

    pub fn clkodiv(&self) -> (r: u8)
        ensures
            r == field(self.0, 5, 2) as u8,
    {
        get_field(self.0, 5, 2) as u8
    }

    pub fn set_clkodiv(&mut self, value: u8)
        ensures
            final(self).0 == with_field(old(self).0, 5, 2, value as u32),
    {
        self.0 = put_field(self.0, 5, 2, value as u32);
    }

    pub fn pllrdy(&self) -> (r: bool)
        ensures
            r == flag(self.0, 8),
    {
        get_flag(self.0, 8)
    }

    pub fn oscrdy(&self) -> (r: bool)
        ensures
            r == flag(self.0, 10),
    {
        get_flag(self.0, 10)
    }

    pub fn sclkrdy(&self) -> (r: bool)
        ensures
            r == flag(self.0, 12),
    {
        get_flag(self.0, 12)
    }
}

impl RegisterValue for OscillatorControlRegister {
    open spec fn word(&self) -> u32 {
        self.0
    }

    fn from_word(word: u32) -> (r: Self) {
        OscillatorControlRegister(word)
    }

    fn to_word(&self) -> (r: u32) {
        self.0
    }
}

impl Register for OscillatorControlRegister {
    open spec fn spec_address() -> SFRAddress {
        SFRAddress::OSC
    }

    fn get_address() -> (r: SFRAddress) {
        SFRAddress::OSC
    }
}

#[derive(Clone, Copy, Debug, PartialEq, Eq, Structural)]
pub struct IoControlRegister(pub u32);

impl IoControlRegister {
    pub fn tris0(&self) -> (r: bool)
        ensures
            r == flag(self.0, 0),
    {
        get_flag(self.0, 0)
    }

    pub fn set_tris0(&mut self, value: bool)
        ensures
            final(self).0 == with_flag(old(self).0, 0, value),
    {
        self.0 = put_flag(self.0, 0, value);
    }

    pub fn tris1(&self) -> (r: bool)
        ensures
            r == flag(self.0, 1),
    {
        get_flag(self.0, 1)
    }

    pub fn set_tris1(&mut self, value: bool)
        ensures
            final(self).0 == with_flag(old(self).0, 1, value),
    {
        self.0 = put_flag(self.0, 1, value);
    }

    pub fn xstbyen(&self) -> (r: bool)
        ensures
            r == flag(self.0, 6),
    {
        get_flag(self.0, 6)
    }

    pub fn set_xstbyen(&mut self, value: bool)
        ensures
            final(self).0 == with_flag(old(self).0, 6, value),
    {
        self.0 = put_flag(self.0, 6, value);
    }

    pub fn lat0(&self) -> (r: bool)
        ensures
            r == flag(self.0, 8),
    {
        get_flag(self.0, 8)
    }

    pub fn set_lat0(&mut self, value: bool)
        ensures
            final(self).0 == with_flag(old(self).0, 8, value),
    {
        self.0 = put_flag(self.0, 8, value);
    }

    pub fn lat1(&self) -> (r: bool)
        ensures
            r == flag(self.0, 9),
    {
        get_flag(self.0, 9)
    }

    pub fn set_lat1(&mut self, value: bool)
        ensures
            final(self).0 == with_flag(old(self).0, 9, value),
    {
        self.0 = put_flag(self.0, 9, value);
    }

    pub fn gpio0(&self) -> (r: bool)
        ensures
            r == flag(self.0, 16),
    {
        get_flag(self.0, 16)
    }

    pub fn gpio1(&self) -> (r: bool)
        ensures
            r == flag(self.0, 17),
    {
        get_flag(self.0, 17)
    }

    pub fn pm0(&self) -> (r: bool)
        ensures
            r == flag(self.0, 24),
    {
        get_flag(self.0, 24)
    }

    pub fn set_pm0(&mut self, value: bool)
        ensures
            final(self).0 == with_flag(old(self).0, 24, value),
    {
        self.0 = put_flag(self.0, 24, value);
    }

    pub fn pm1(&self) -> (r: bool)
        ensures
            r == flag(self.0, 25),
    {
        get_flag(self.0, 25)
    }

    pub fn set_pm1(&mut self, value: bool)
        ensures
            final(self).0 == with_flag(old(self).0, 25, value),
    {
        self.0 = put_flag(self.0, 25, value);
    }

    pub fn txcanod(&self) -> (r: bool)
        ensures
            r == flag(self.0, 28),
    {
        get_flag(self.0, 28)
    }

    pub fn set_txcanod(&mut self, value: bool)
        ensures
            final(self).0 == with_flag(old(self).0, 28, value),
    {
        self.0 = put_flag(self.0, 28, value);
    }

    pub fn sof(&self) -> (r: bool)
        ensures
            r == flag(self.0, 29),
    {
        get_flag(self.0, 29)
    }

    pub fn set_sof(&mut self, value: bool)
        ensures
            final(self).0 == with_flag(old(self).0, 29, value),
    {
        self.0 = put_flag(self.0, 29, value);
    }

    pub fn intod(&self) -> (r: bool)
        ensures
            r == flag(self.0, 30),
    {
        get_flag(self.0, 30)
    }

    pub fn set_intod(&mut self, value: bool)
        ensures
            final(self).0 == with_flag(old(self).0, 30, value),
    {
        self.0 = put_flag(self.0, 30, value);
    }
}

impl RegisterValue for IoControlRegister {
    open spec fn word(&self) -> u32 {
        self.0
    }

    fn from_word(word: u32) -> (r: Self) {
        IoControlRegister(word)
    }

    fn to_word(&self) -> (r: u32) {
        self.0
    }
}

impl Register for IoControlRegister {
    open spec fn spec_address() -> SFRAddress {
        SFRAddress::IOCON
    }

    fn get_address() -> (r: SFRAddress) {
        SFRAddress::IOCON
    }
}

#[derive(Clone, Copy, Debug, PartialEq, Eq, Structural)]
pub struct CrcRegister(pub u32);

impl CrcRegister {
    pub fn crc(&self) -> (r: u16)
        ensures
            r == field(self.0, 0, 16) as u16,
    {
        get_field(self.0, 0, 16) as u16
    }

    pub fn crcerrie(&self) -> (r: bool)
        ensures
            r == flag(self.0, 24),
    {
        get_flag(self.0, 24)
    }

    pub fn set_crcerrie(&mut self, value: bool)
        ensures
            final(self).0 == with_flag(old(self).0, 24, value),
    {
        self.0 = put_flag(self.0, 24, value);
    }

    pub fn ferrie(&self) -> (r: bool)
        ensures
            r == flag(self.0, 25),
    {
        get_flag(self.0, 25)
    }

    pub fn set_ferrie(&mut self, value: bool)
        ensures
            final(self).0 == with_flag(old(self).0, 25, value),
    {
        self.0 = put_flag(self.0, 25, value);
    }

    pub fn crcerrif(&self) -> (r: bool)
        ensures
            r == flag(self.0, 16),
    {
        get_flag(self.0, 16)
    }

    pub fn clear_crcerrif(&mut self)
        ensures
            final(self).0 == with_flag(old(self).0, 16, false),
    {
        self.0 = put_flag(self.0, 16, false);
    }

    pub fn ferrif(&self) -> (r: bool)
        ensures
            r == flag(self.0, 17),
    {
        get_flag(self.0, 17)
    }

    pub fn clear_ferrif(&mut self)
        ensures
            final(self).0 == with_flag(old(self).0, 17, false),
    {
        self.0 = put_flag(self.0, 17, false);
    }
}

impl RegisterValue for CrcRegister {
    open spec fn word(&self) -> u32 {
        self.0
    }

    fn from_word(word: u32) -> (r: Self) {
        CrcRegister(word)
    }

    fn to_word(&self) -> (r: u32) {
        self.0
    }
}

impl Register for CrcRegister {
    open spec fn spec_address() -> SFRAddress {
        SFRAddress::CRC
    }

    fn get_address() -> (r: SFRAddress) {
        SFRAddress::CRC
    }
}

#[derive(Clone, Copy, Debug, PartialEq, Eq, Structural)]
pub struct EccControlRegister(pub u32);

impl EccControlRegister {
    pub fn eccen(&self) -> (r: bool)
        ensures
            r == flag(self.0, 0),
    {
        get_flag(self.0, 0)
    }

    pub fn set_eccen(&mut self, value: bool)
        ensures
            final(self).0 == with_flag(old(self).0, 0, value),
    {
        self.0 = put_flag(self.0, 0, value);
    }

    pub fn secie(&self) -> (r: bool)
        ensures
            r == flag(self.0, 1),
    {
        get_flag(self.0, 1)
    }

    pub fn set_secie(&mut self, value: bool)
        ensures
            final(self).0 == with_flag(old(self).0, 1, value),
    {
        self.0 = put_flag(self.0, 1, value);
    }

    pub fn dedie(&self) -> (r: bool)
        ensures
            r == flag(self.0, 2),
    {
        get_flag(self.0, 2)
    }

    pub fn set_dedie(&mut self, value: bool)
        ensures
            final(self).0 == with_flag(old(self).0, 2, value),
    {
        self.0 = put_flag(self.0, 2, value);
    }

    pub fn parity(&self) -> (r: u8)
        ensures
            r == field(self.0, 8, 7) as u8,
    {
        get_field(self.0, 8, 7) as u8
    }

    pub fn set_parity(&mut self, value: u8)
        ensures
            final(self).0 == with_field(old(self).0, 8, 7, value as u32),
    {
        self.0 = put_field(self.0, 8, 7, value as u32);
    }
}

impl RegisterValue for EccControlRegister {
    open spec fn word(&self) -> u32 {
        self.0
    }

    fn from_word(word: u32) -> (r: Self) {
        EccControlRegister(word)
    }

    fn to_word(&self) -> (r: u32) {
        self.0
    }
}

impl Register for EccControlRegister {
    open spec fn spec_address() -> SFRAddress {
        SFRAddress::ECCCON
    }

    fn get_address() -> (r: SFRAddress) {
        SFRAddress::ECCCON
    }
}

#[derive(Clone, Copy, Debug, PartialEq, Eq, Structural)]
pub struct EccStatusRegister(pub u32);

impl EccStatusRegister {
    pub fn erraddr(&self) -> (r: u16)
        ensures
            r == field(self.0, 16, 12) as u16,
    {
        get_field(self.0, 16, 12) as u16
    }

    pub fn secif(&self) -> (r: bool)
        ensures
            r == flag(self.0, 1),
    {
        get_flag(self.0, 1)
    }

    pub fn clear_secif(&mut self)
        ensures
            final(self).0 == with_flag(old(self).0, 1, false),
    {
        self.0 = put_flag(self.0, 1, false);
    }

    pub fn dedif(&self) -> (r: bool)
        ensures
            r == flag(self.0, 2),
    {
        get_flag(self.0, 2)
    }

    pub fn clear_dedif(&mut self)
        ensures
            final(self).0 == with_flag(old(self).0, 2, false),
    {
        self.0 = put_flag(self.0, 2, false);
    }
}

impl RegisterValue for EccStatusRegister {
    open spec fn word(&self) -> u32 {
        self.0
    }

    fn from_word(word: u32) -> (r: Self) {
        EccStatusRegister(word)
    }

    fn to_word(&self) -> (r: u32) {
        self.0
    }
}

impl Register for EccStatusRegister {
    open spec fn spec_address() -> SFRAddress {
        SFRAddress::ECCSTAT
    }

    fn get_address() -> (r: SFRAddress) {
        SFRAddress::ECCSTAT
    }
}

#[derive(Clone, Copy, Debug, PartialEq, Eq, Structural)]
pub struct DeviceIdRegister(pub u32);

impl DeviceIdRegister {
    pub fn rev(&self) -> (r: u8)
        ensures
            r == field(self.0, 0, 4) as u8,
    {
        get_field(self.0, 0, 4) as u8
    }

    pub fn id(&self) -> (r: u8)
        ensures
            r == field(self.0, 4, 4) as u8,
    {
        get_field(self.0, 4, 4) as u8
    }
}

impl RegisterValue for DeviceIdRegister {
    open spec fn word(&self) -> u32 {
        self.0
    }

    fn from_word(word: u32) -> (r: Self) {
        DeviceIdRegister(word)
    }

    fn to_word(&self) -> (r: u32) {
        self.0
    }
}

impl Register for DeviceIdRegister {
    open spec fn spec_address() -> SFRAddress {
        SFRAddress::DEVID
    }

    fn get_address() -> (r: SFRAddress) {
        SFRAddress::DEVID
    }
}
} // verus!
