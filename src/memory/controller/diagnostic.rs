//! Error counters and bus diagnostics.
use vstd::prelude::*;

use crate::bits::{field, flag, get_field, get_flag, put_field, put_flag, with_field, with_flag};
use crate::memory::{Register, RegisterValue, SFRAddress};

verus! {

#[derive(Clone, Copy, Debug, PartialEq, Eq, Structural)]
pub struct TransmitReceiveErrorCountRegister(pub u32);

impl TransmitReceiveErrorCountRegister {
    pub fn tec(&self) -> (r: u8)
        ensures
            r == field(self.0, 0, 8) as u8,
    {
        get_field(self.0, 0, 8) as u8
    }

    pub fn rec(&self) -> (r: u8)
        ensures
            r == field(self.0, 8, 8) as u8,
    {
        get_field(self.0, 8, 8) as u8
    }

    pub fn ewarn(&self) -> (r: bool)
        ensures
            r == flag(self.0, 16),
    {
        get_flag(self.0, 16)
    }

    pub fn rxwarn(&self) -> (r: bool)
        ensures
            r == flag(self.0, 17),
    {
        get_flag(self.0, 17)
    }

    pub fn txwarn(&self) -> (r: bool)
        ensures
            r == flag(self.0, 18),
    {
        get_flag(self.0, 18)
    }

    pub fn rxbp(&self) -> (r: bool)
        ensures
            r == flag(self.0, 19),
    {
        get_flag(self.0, 19)
    }

    pub fn txbp(&self) -> (r: bool)
        ensures
            r == flag(self.0, 20),
    {
        get_flag(self.0, 20)
    }

    pub fn txbo(&self) -> (r: bool)
        ensures
            r == flag(self.0, 21),
    {
        get_flag(self.0, 21)
    }
}

impl RegisterValue for TransmitReceiveErrorCountRegister {
    open spec fn word(&self) -> u32 {
        self.0
    }

    fn from_word(word: u32) -> (r: Self) {
        TransmitReceiveErrorCountRegister(word)
    }

    fn to_word(&self) -> (r: u32) {
        self.0
    }
}

impl Register for TransmitReceiveErrorCountRegister {
    open spec fn spec_address() -> SFRAddress {
        SFRAddress::C1TREC
    }

    fn get_address() -> (r: SFRAddress) {
        SFRAddress::C1TREC
    }
}

#[derive(Clone, Copy, Debug, PartialEq, Eq, Structural)]
pub struct BusDiagnosticRegister0(pub u32);

impl BusDiagnosticRegister0 {
    pub fn nrerrcnt(&self) -> (r: u8)
        ensures
            r == field(self.0, 0, 8) as u8,
    {
        get_field(self.0, 0, 8) as u8
    }

    pub fn set_nrerrcnt(&mut self, value: u8)
        ensures
            final(self).0 == with_field(old(self).0, 0, 8, value as u32),
    {
        self.0 = put_field(self.0, 0, 8, value as u32);
    }

    pub fn nterrcnt(&self) -> (r: u8)
        ensures
            r == field(self.0, 8, 8) as u8,
    {
        get_field(self.0, 8, 8) as u8
    }

    pub fn set_nterrcnt(&mut self, value: u8)
        ensures
            final(self).0 == with_field(old(self).0, 8, 8, value as u32),
    {
        self.0 = put_field(self.0, 8, 8, value as u32);
    }

    pub fn drerrcnt(&self) -> (r: u8)
        ensures
            r == field(self.0, 16, 8) as u8,
    {
        get_field(self.0, 16, 8) as u8
    }

    pub fn set_drerrcnt(&mut self, value: u8)
        ensures
            final(self).0 == with_field(old(self).0, 16, 8, value as u32),
    {
        self.0 = put_field(self.0, 16, 8, value as u32);
    }

    pub fn dterrcnt(&self) -> (r: u8)
        ensures
            r == field(self.0, 24, 8) as u8,
    {
        get_field(self.0, 24, 8) as u8
    }

    pub fn set_dterrcnt(&mut self, value: u8)
        ensures
            final(self).0 == with_field(old(self).0, 24, 8, value as u32),
    {
        self.0 = put_field(self.0, 24, 8, value as u32);
    }
}

impl RegisterValue for BusDiagnosticRegister0 {
    open spec fn word(&self) -> u32 {
        self.0
    }

    fn from_word(word: u32) -> (r: Self) {
        BusDiagnosticRegister0(word)
    }

    fn to_word(&self) -> (r: u32) {
        self.0
    }
}

impl Register for BusDiagnosticRegister0 {
    open spec fn spec_address() -> SFRAddress {
        SFRAddress::C1BDIAG0
    }

    fn get_address() -> (r: SFRAddress) {
        SFRAddress::C1BDIAG0
    }
}

#[derive(Clone, Copy, Debug, PartialEq, Eq, Structural)]
pub struct BusDiagnosticRegister1(pub u32);

impl BusDiagnosticRegister1 {
    pub fn efmsgcnt(&self) -> (r: u16)
        ensures
            r == field(self.0, 0, 16) as u16,
    {
        get_field(self.0, 0, 16) as u16
    }

    pub fn set_efmsgcnt(&mut self, value: u16)
        ensures
            final(self).0 == with_field(old(self).0, 0, 16, value as u32),
    {
        self.0 = put_field(self.0, 0, 16, value as u32);
    }

    pub fn nbit0err(&self) -> (r: bool)
        ensures
            r == flag(self.0, 16),
    {
        get_flag(self.0, 16)
    }

    pub fn set_nbit0err(&mut self, value: bool)
        ensures
            final(self).0 == with_flag(old(self).0, 16, value),
    {
        self.0 = put_flag(self.0, 16, value);
    }

    pub fn nbit1err(&self) -> (r: bool)
        ensures
            r == flag(self.0, 17),
    {
        get_flag(self.0, 17)
    }

    pub fn set_nbit1err(&mut self, value: bool)
        ensures
            final(self).0 == with_flag(old(self).0, 17, value),
    {
        self.0 = put_flag(self.0, 17, value);
    }

    pub fn nackerr(&self) -> (r: bool)
        ensures
            r == flag(self.0, 18),
    {
        get_flag(self.0, 18)
    }

    pub fn set_nackerr(&mut self, value: bool)
        ensures
            final(self).0 == with_flag(old(self).0, 18, value),
    {
        self.0 = put_flag(self.0, 18, value);
    }

    pub fn nformerr(&self) -> (r: bool)
        ensures
            r == flag(self.0, 19),
    {
        get_flag(self.0, 19)
    }

    pub fn set_nformerr(&mut self, value: bool)
        ensures
            final(self).0 == with_flag(old(self).0, 19, value),
    {
        self.0 = put_flag(self.0, 19, value);
    }

    pub fn nstuferr(&self) -> (r: bool)
        ensures
            r == flag(self.0, 20),
    {
        get_flag(self.0, 20)
    }

    pub fn set_nstuferr(&mut self, value: bool)
        ensures
            final(self).0 == with_flag(old(self).0, 20, value),
    {
        self.0 = put_flag(self.0, 20, value);
    }

    pub fn ncrcerr(&self) -> (r: bool)
        ensures
            r == flag(self.0, 21),
    {
        get_flag(self.0, 21)
    }

    pub fn set_ncrcerr(&mut self, value: bool)
        ensures
            final(self).0 == with_flag(old(self).0, 21, value),
    {
        self.0 = put_flag(self.0, 21, value);
    }

    pub fn txboerr(&self) -> (r: bool)
        ensures
            r == flag(self.0, 23),
    {
        get_flag(self.0, 23)
    }

    pub fn set_txboerr(&mut self, value: bool)
        ensures
            final(self).0 == with_flag(old(self).0, 23, value),
    {
        self.0 = put_flag(self.0, 23, value);
    }

    pub fn dbit0err(&self) -> (r: bool)
        ensures
            r == flag(self.0, 24),
    {
        get_flag(self.0, 24)
    }

    pub fn set_dbit0err(&mut self, value: bool)
        ensures
            final(self).0 == with_flag(old(self).0, 24, value),
    {
        self.0 = put_flag(self.0, 24, value);
    }

    pub fn dbit1err(&self) -> (r: bool)
        ensures
            r == flag(self.0, 25),
    {
        get_flag(self.0, 25)
    }

    pub fn set_dbit1err(&mut self, value: bool)
        ensures
            final(self).0 == with_flag(old(self).0, 25, value),
    {
        self.0 = put_flag(self.0, 25, value);
    }

    pub fn dformerr(&self) -> (r: bool)
        ensures
            r == flag(self.0, 27),
    {
        get_flag(self.0, 27)
    }

    pub fn set_dformerr(&mut self, value: bool)
        ensures
            final(self).0 == with_flag(old(self).0, 27, value),
    {
        self.0 = put_flag(self.0, 27, value);
    }

    pub fn dstuferr(&self) -> (r: bool)
        ensures
            r == flag(self.0, 28),
    {
        get_flag(self.0, 28)
    }

    pub fn set_dstuferr(&mut self, value: bool)
        ensures
            final(self).0 == with_flag(old(self).0, 28, value),
    {
        self.0 = put_flag(self.0, 28, value);
    }

    pub fn dcrcerr(&self) -> (r: bool)
        ensures
            r == flag(self.0, 29),
    {
        get_flag(self.0, 29)
    }

    pub fn set_dcrcerr(&mut self, value: bool)
        ensures
            final(self).0 == with_flag(old(self).0, 29, value),
    {
        self.0 = put_flag(self.0, 29, value);
    }

    pub fn esi(&self) -> (r: bool)
        ensures
            r == flag(self.0, 30),
    {
        get_flag(self.0, 30)
    }

    pub fn set_esi(&mut self, value: bool)
        ensures
            final(self).0 == with_flag(old(self).0, 30, value),
    {
        self.0 = put_flag(self.0, 30, value);
    }

    pub fn dlcmm(&self) -> (r: bool)
        ensures
            r == flag(self.0, 31),
    {
        get_flag(self.0, 31)
    }

    pub fn set_dlcmm(&mut self, value: bool)
        ensures
            final(self).0 == with_flag(old(self).0, 31, value),
    {
        self.0 = put_flag(self.0, 31, value);
    }
}

impl RegisterValue for BusDiagnosticRegister1 {
    open spec fn word(&self) -> u32 {
        self.0
    }

    fn from_word(word: u32) -> (r: Self) {
        BusDiagnosticRegister1(word)
    }

    fn to_word(&self) -> (r: u32) {
        self.0
    }
}

impl Register for BusDiagnosticRegister1 {
    open spec fn spec_address() -> SFRAddress {
        SFRAddress::C1BDIAG1
    }

    fn get_address() -> (r: SFRAddress) {
        SFRAddress::C1BDIAG1
    }
}
} // verus!
